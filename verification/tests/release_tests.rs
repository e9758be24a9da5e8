use app_dist::release::{
    file_stem_of, is_app_bundle_name,
    artifact_file_name, format_size, parse_u32, parse_yaml_field, resolve_build_number,
    resolve_release_target, resolve_version, upload_object_url, upload_url_request, ReleaseArgs,
    ReleaseEnv, ReleaseError,
};

#[test]
fn test_format_size_bytes() {
    assert_eq!(format_size(512), "512 B");
}

#[test]
fn test_format_size_kb() {
    assert_eq!(format_size(2048), "2 KB");
}

#[test]
fn test_format_size_mb() {
    assert_eq!(format_size(52_428_800), "50.0 MB");
}

#[test]
fn test_format_size_gb() {
    assert_eq!(format_size(1_073_741_824), "1.0 GB");
}

#[test]
fn test_format_size_zero() {
    assert_eq!(format_size(0), "0 B");
}

#[test]
fn test_parse_yaml_field_found() {
    let yaml = "app: my-app\nscheme: MyApp";
    assert_eq!(parse_yaml_field(yaml, "app"), Some("my-app".to_string()));
}

#[test]
fn test_parse_yaml_field_quoted() {
    let yaml = "app: \"my-app\"";
    assert_eq!(parse_yaml_field(yaml, "app"), Some("my-app".to_string()));
}

#[test]
fn test_parse_yaml_field_not_found() {
    let yaml = "app: my-app\nscheme: MyApp";
    assert_eq!(parse_yaml_field(yaml, "channel"), None);
}

#[test]
fn test_parse_yaml_field_empty() {
    assert_eq!(parse_yaml_field("", "app"), None);
}

#[test]
fn test_parse_yaml_field_partial_match() {
    let yaml = "app_name: something";
    assert_eq!(parse_yaml_field(yaml, "app"), None);
}

/// The size text that `{:.1}` float formatting prints for `bytes`.
fn float_size(bytes: u64) -> String {
    const KB: u64 = 1024;
    const MB: u64 = 1024 * KB;
    const GB: u64 = 1024 * MB;
    if bytes >= GB {
        format!("{:.1} GB", bytes as f64 / GB as f64)
    } else if bytes >= MB {
        format!("{:.1} MB", bytes as f64 / MB as f64)
    } else if bytes >= KB {
        format!("{:.0} KB", bytes as f64 / KB as f64)
    } else {
        format!("{} B", bytes)
    }
}

#[test]
fn format_size_agrees_with_float_formatting() {
    let mut samples: Vec<u64> = vec![
        0, 1, 1023, 1024, 1535, 1536, 1537, 2560, 3584, 1_048_575, 1_048_576, 1_101_004,
        1_153_433, 1_205_862, 1_073_741_823, 1_073_741_824, 1_127_428_915, 1_181_116_006,
        (1u64 << 53) - 1, 1u64 << 53, (1u64 << 53) + 1, (1u64 << 53) + 3, u64::MAX, u64::MAX - 1,
        (1u64 << 63) + (1u64 << 10), 9_999_999_999_999, 123_456_789_012_345_678,
    ];
    let mut x: u64 = 0x9E37_79B9_7F4A_7C15;
    for _ in 0..20000 {
        x ^= x << 13;
        x ^= x >> 7;
        x ^= x << 17;
        samples.push(x >> (x % 64));
    }
    for k in 0..64u32 {
        let b = 1u64 << k;
        samples.push(b);
        samples.push(b.wrapping_sub(1));
        samples.push(b + b / 2);
        samples.push(b / 20 * 3);
    }
    for b in samples {
        assert_eq!(format_size(b), float_size(b), "bytes = {}", b);
    }
}

#[test]
fn format_size_ties_go_to_even() {
    assert_eq!(format_size(1536), "2 KB");
    assert_eq!(format_size(2560), "2 KB");
    assert_eq!(format_size(3584), "4 KB");
    assert_eq!(format_size(u64::MAX), "17179869184.0 GB");
}

#[test]
fn parse_yaml_field_first_line_wins_and_strips() {
    let yaml = "  scheme:   \"MyApp\"  \r\nscheme: Other\n";
    assert_eq!(parse_yaml_field(yaml, "scheme"), Some("MyApp".to_string()));
    assert_eq!(parse_yaml_field("app:app: x", "app"), Some("x".to_string()));
    assert_eq!(parse_yaml_field("app: \" spaced \"", "app"), Some(" spaced ".to_string()));
    assert_eq!(parse_yaml_field("xcode_project: A/B.xcodeproj", "xcode_project"), Some("A/B.xcodeproj".to_string()));
    assert_eq!(parse_yaml_field("app:", "app"), Some(String::new()));
}

#[test]
fn parse_u32_agrees_with_std() {
    let cases = [
        "", "+", "0", "42", "+42", "-1", "4294967295", "4294967296", "99999999999", "12a", " 1",
        "007", "+0", "1 ", "\u{661}",
    ];
    for c in cases {
        assert_eq!(parse_u32(c), c.parse::<u32>().ok(), "input {:?}", c);
    }
}

fn args() -> ReleaseArgs {
    ReleaseArgs {
        app: None,
        version: None,
        build: None,
        archive_path: None,
        project: None,
        scheme: None,
        out_dir: "dist".to_string(),
        skip_notarize: false,
        skip_sign: false,
    }
}

fn no_env() -> ReleaseEnv {
    ReleaseEnv { app: None, scheme: None, project: None }
}

#[test]
fn release_target_falls_back_to_environment() {
    let env = ReleaseEnv {
        app: Some("env-app".to_string()),
        scheme: Some("EnvScheme".to_string()),
        project: Some("Env.xcodeproj".to_string()),
    };
    let config = Some("scheme: YmlScheme\n".to_string());
    let t = match resolve_release_target(&args(), &config, &env) {
        Ok(t) => t,
        Err(_) => panic!("expected a target"),
    };
    assert_eq!(t.app_id, "env-app");
    assert_eq!(t.scheme, "YmlScheme");
    assert_eq!(t.project, "Env.xcodeproj");
    let t = match resolve_release_target(&args(), &None, &env) {
        Ok(t) => t,
        Err(_) => panic!("expected a target"),
    };
    assert_eq!(t.scheme, "EnvScheme");
    assert_eq!(t.archive_path, "build/EnvScheme.xcarchive");
}

#[test]
fn release_target_from_config_and_flags() {
    let config = Some("app: abc123\nscheme: Vapor\nxcode_project: Vapor/Vapor.xcodeproj\n".to_string());
    let t = match resolve_release_target(&args(), &config, &no_env()) {
        Ok(t) => t,
        Err(_) => panic!("expected a target"),
    };
    assert_eq!(t.app_id, "abc123");
    assert_eq!(t.scheme, "Vapor");
    assert_eq!(t.project, "Vapor/Vapor.xcodeproj");
    assert_eq!(t.archive_path, "build/Vapor.xcarchive");

    let mut a = args();
    a.app = Some("flag-app".to_string());
    a.scheme = Some("/abs/S".to_string());
    let t = match resolve_release_target(&a, &config, &no_env()) {
        Ok(t) => t,
        Err(_) => panic!("expected a target"),
    };
    assert_eq!(t.app_id, "flag-app");
    assert_eq!(t.archive_path, "/abs/S.xcarchive");
}

#[test]
fn release_target_errors() {
    assert!(matches!(resolve_release_target(&args(), &None, &no_env()), Err(ReleaseError::ProjectConfigUnreadable)));
    assert!(matches!(
        resolve_release_target(&args(), &Some("scheme: S\n".to_string()), &no_env()),
        Err(ReleaseError::MissingApp)
    ));
    assert!(matches!(
        resolve_release_target(&args(), &Some("app: a\nscheme: S\n".to_string()), &no_env()),
        Err(ReleaseError::MissingSchemeOrProject)
    ));
    let mut a = args();
    a.app = Some("x".to_string());
    assert!(matches!(resolve_release_target(&a, &None, &no_env()), Err(ReleaseError::MissingSchemeOrProject)));
}

#[test]
fn release_version_and_build() {
    assert_eq!(resolve_version(&Some("1.2.3".to_string()), &Some("9".to_string())), "1.2.3");
    assert_eq!(resolve_version(&None, &Some("2.0".to_string())), "2.0");
    assert_eq!(resolve_version(&None, &None), "0.0.0");
    assert!(matches!(resolve_build_number(Some(42), &None), Ok(42)));
    assert!(matches!(resolve_build_number(None, &Some("17".to_string())), Ok(17)));
    assert!(matches!(resolve_build_number(None, &Some("x".to_string())), Err(ReleaseError::MissingBuildNumber)));
    assert!(matches!(resolve_build_number(Some(0), &Some("3".to_string())), Err(ReleaseError::MissingBuildNumber)));
    assert!(matches!(resolve_build_number(None, &None), Err(ReleaseError::MissingBuildNumber)));
}

#[test]
fn artifact_names_and_upload_urls() {
    assert_eq!(artifact_file_name("Vapor", "1.2.0", 42, "dmg"), "Vapor-1.2.0-42.dmg");
    assert_eq!(artifact_file_name("Vapor", "1.2.0", 42, "zip"), "Vapor-1.2.0-42.zip");
    assert_eq!(upload_object_url("https://up.example", "k/1.dmg"), "https://up.example/k/1.dmg");
    let r = upload_url_request("https://a", "app1", "1.0", 7);
    assert_eq!(r.url, "https://a/api/v1/apps/app1/releases/upload-url");
    let body = r.body.unwrap();
    assert_eq!(body.len(), 2);
    assert_eq!(body[0].key, "version");
    assert_eq!(body[1].key, "build_number");
    assert!(matches!(body[1].value, app_dist::api::JsonValue::Num(7)));
}

#[test]
fn bundle_names_agree_with_path() {
    for name in ["MyApp.app", "My.App.app", ".app", "app", "x.apps", "x.app.zip", "..", ".", "a.", "a..app", "\u{e9}t\u{e9}.app"] {
        let p = std::path::Path::new(name);
        assert_eq!(is_app_bundle_name(name), p.extension().is_some_and(|e| e == "app"), "name {:?}", name);
        if let Some(stem) = p.file_stem() {
            assert_eq!(file_stem_of(name), stem.to_string_lossy(), "name {:?}", name);
        }
    }
}

#[test]
fn yaml_line_round_trip() {
    for (field, value) in [("app", "abc123"), ("scheme", "My App"), ("xcode_project", "A/B.xcodeproj"), ("app", "")] {
        let yaml = format!("{}: {}", field, value);
        assert_eq!(parse_yaml_field(&yaml, field), Some(value.to_string()));
    }
}

#[test]
fn build_numbers_read_back() {
    for n in [1u32, 9, 10, 42, 1000, u32::MAX] {
        assert_eq!(parse_u32(&app_dist::text::decimal_string(n as u64)), Some(n));
    }
}
