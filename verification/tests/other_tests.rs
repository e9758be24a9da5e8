use app_dist::api::{api_base_url, bearer, JsonValue, Method};
use app_dist::auth::{check_api_key, rotate_key_request, whoami_request};
use app_dist::status::{dashboard_row, latest_release_request, shows_free_plan_tip, truncate};
use app_dist::testers::{split_email_list, tester_request, tester_row, AddArgs, NotifyArgs, TesterCommands};
use app_dist::text::{decimal_string, is_whitespace_exec, trim_str};

#[test]
fn api_key_form() {
    assert!(check_api_key("apd_test123456789012"));
    assert!(!check_api_key("apx_test"));
    assert!(!check_api_key("apd"));
    assert!(!check_api_key(""));
}

#[test]
fn auth_requests() {
    let r = whoami_request("https://a");
    assert!(matches!(r.method, Method::Get));
    assert_eq!(r.url, "https://a/api/v1/auth/whoami");
    let r = rotate_key_request("https://a");
    assert!(matches!(r.method, Method::Post));
    assert_eq!(r.url, "https://a/api/v1/auth/rotate-key");
    assert_eq!(bearer("apd_x"), "Bearer apd_x");
}

#[test]
fn api_url_default_and_override() {
    assert_eq!(api_base_url(&None), "https://api.app-dist.com");
    assert_eq!(api_base_url(&Some("https://custom.example.com".to_string())), "https://custom.example.com");
}

#[test]
fn status_truncate() {
    assert_eq!(truncate("short".to_string(), 20), "short");
    assert_eq!(truncate("abcdefghijklmnopqrstuvwxyz".to_string(), 20), "abcdefghijklmnopqrs\u{2026}");
    let once = truncate("abcdefghijklmnopqrstuvwxyz".to_string(), 12);
    assert_eq!(truncate(once.clone(), 12), once);
}

#[test]
fn status_row_and_tip() {
    let row = dashboard_row("My App", "my-app", "free", "2026-04-23T12:00:00Z");
    let expected = format!("  {:<20} {:<12} {:<8} {}", "My App", "my-app", "free", "2026-04-23");
    assert_eq!(row, expected);
    assert!(shows_free_plan_tip("free"));
    assert!(!shows_free_plan_tip("pro"));
    let r = latest_release_request("https://a", "id1");
    assert_eq!(r.url, "https://a/api/v1/apps/id1/releases?limit=1");
}

#[test]
fn email_list_split() {
    assert_eq!(split_email_list(" a@x.com, ,b@y.org,,  c@z.net "), vec!["a@x.com", "b@y.org", "c@z.net"]);
    assert!(split_email_list("").is_empty());
    assert!(split_email_list(" , ").is_empty());
}

#[test]
fn tester_requests() {
    let add = TesterCommands::Add(AddArgs { app: "my-app".to_string(), email: "alice@example.com".to_string() });
    let r = tester_request("https://a", &add);
    assert!(matches!(r.method, Method::Post));
    assert_eq!(r.url, "https://a/api/v1/apps/my-app/testers");

    let none = TesterCommands::Notify(NotifyArgs { app: "x".to_string(), release: None, all_testers: false, emails: None });
    let r = tester_request("https://a", &none);
    assert_eq!(r.url, "https://a/api/v1/apps/x/grants/batch");
    assert_eq!(r.body.as_ref().unwrap().len(), 1);

    let some = TesterCommands::Notify(NotifyArgs {
        app: "x".to_string(),
        release: None,
        all_testers: false,
        emails: Some("a@b.c, d@e.f".to_string()),
    });
    let r = tester_request("https://a", &some);
    assert_eq!(r.url, "https://a/api/v1/apps/x/grants/batch");
    let body = r.body.unwrap();
    assert_eq!(body[0].key, "release");
    assert!(matches!(&body[0].value, JsonValue::Str(s) if s == "latest"));
    assert!(matches!(&body[1].value, JsonValue::StrList(l) if l == &vec!["a@b.c".to_string(), "d@e.f".to_string()]));
}

#[test]
fn tester_rows() {
    let row = tester_row(&Some("alice@example.com".to_string()), Some(3), &Some("2026-01-02T00:00:00Z".to_string()));
    assert_eq!(row, format!("{:<40} {:<15} {}", "alice@example.com", 3, "2026-01-02"));
    let row = tester_row(&None, None, &None);
    assert_eq!(row, format!("{:<40} {:<15} {}", "?", 0, "?"));
}

#[test]
fn text_helpers_agree_with_std() {
    for u in 0..0x11000u32 {
        if let Some(c) = char::from_u32(u) {
            assert_eq!(is_whitespace_exec(c), c.is_whitespace(), "char {:x}", u);
        }
    }
    for s in ["", "  x ", "\u{3000}a b\u{85}", "\t\r\n", "abc"] {
        assert_eq!(trim_str(s), s.trim());
    }
    for n in [0u64, 7, 10, 99, 100, 12345, u64::MAX] {
        assert_eq!(decimal_string(n), n.to_string());
    }
}

#[test]
fn email_list_round_trip() {
    let addresses = vec!["a@x.com".to_string(), "b c@y.org".to_string(), "z@w.net".to_string()];
    assert_eq!(split_email_list(&addresses.join(",")), addresses);
    assert_eq!(split_email_list(&addresses.join(", ")), addresses);
}
