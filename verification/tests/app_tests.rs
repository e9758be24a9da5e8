use app_dist::api::{JsonValue, Method};
use app_dist::app::{app_list_row, app_request, sparkle_label, truncate_date, truncate_id, AppCommands, CreateArgs};

#[test]
fn test_truncate_id_short() {
    assert_eq!(truncate_id("abc"), "abc");
}

#[test]
fn test_truncate_id_exact() {
    let id = "a".repeat(36);
    assert_eq!(truncate_id(&id), id);
}

#[test]
fn test_truncate_id_long() {
    let id = "a".repeat(50);
    assert_eq!(truncate_id(&id), format!("{}\u{2026}", "a".repeat(35)));
}

#[test]
fn test_truncate_date_full() {
    assert_eq!(truncate_date("2026-04-23T12:00:00"), "2026-04-23");
}

#[test]
fn test_truncate_date_short() {
    assert_eq!(truncate_date("short"), "short");
}

#[test]
fn test_truncate_date_empty() {
    assert_eq!(truncate_date(""), "");
}

#[test]
fn truncate_id_counts_bytes_not_characters() {
    // 30 two-byte characters are 60 bytes: cut at byte 34 (a boundary) would be
    // wrong; byte 35 falls inside a character, so callers must not pass it.
    let id = format!("{}{}", "a".repeat(33), "\u{e9}\u{e9}\u{e9}");
    // 33 + 6 = 39 bytes; byte 35 is the boundary after the first e-acute.
    assert_eq!(truncate_id(&id), format!("{}\u{e9}\u{2026}", "a".repeat(33)));
}

#[test]
fn truncate_id_is_stable() {
    let once = truncate_id(&"x".repeat(80));
    assert_eq!(truncate_id(&once), once);
    assert_eq!(once.chars().count(), 36);
}

#[test]
fn truncate_date_keeps_whole_string_off_boundary() {
    // byte 10 falls inside the two-byte character
    let d = "2026-04-2\u{e9}xyz";
    assert_eq!(truncate_date(d), d);
    assert_eq!(truncate_date(&truncate_date("2026-04-23T00:00")), "2026-04-23");
}

#[test]
fn app_list_row_pads_columns() {
    let row = app_list_row("abc", "my-app", "free", "2026-04-23T12:00:00Z");
    let expected = format!("{:<36} {:<20} {:<10} {}", "abc", "my-app", "free", "2026-04-23");
    assert_eq!(row, expected);
}

#[test]
fn sparkle_label_values() {
    assert_eq!(sparkle_label(1), "enabled");
    assert_eq!(sparkle_label(0), "disabled");
    assert_eq!(sparkle_label(2), "disabled");
}

#[test]
fn app_create_request_body() {
    let cmd = AppCommands::Create(CreateArgs {
        name: "My App".to_string(),
        bundle_id: None,
        homepage_url: Some("https://x.example".to_string()),
        support_email: Some("s@example.com".to_string()),
    });
    let r = app_request("https://api.example.com", &cmd);
    assert!(matches!(r.method, Method::Post));
    assert_eq!(r.url, "https://api.example.com/api/v1/apps");
    let body = r.body.unwrap();
    let keys: Vec<&str> = body.iter().map(|f| f.key.as_str()).collect();
    assert_eq!(keys, vec!["display_name", "homepage_url", "support_email"]);
    match &body[0].value {
        JsonValue::Str(s) => assert_eq!(s, "My App"),
        _ => panic!("expected a string"),
    }
}

#[test]
fn app_info_and_list_requests() {
    let r = app_request("https://a", &AppCommands::Info { app: "some-app-id".to_string() });
    assert!(matches!(r.method, Method::Get));
    assert_eq!(r.url, "https://a/api/v1/apps/some-app-id");
    assert!(r.body.is_none());
    let r = app_request("https://a", &AppCommands::List);
    assert_eq!(r.url, "https://a/api/v1/apps");
}
