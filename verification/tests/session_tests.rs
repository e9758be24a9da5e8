use app_dist::auth::{login_request, login_verdict, LoginError};
use app_dist::project::config_search_paths;
use app_dist::status::{no_apps_note, no_releases_note};
use app_dist::api::Method;

#[test]
fn dashboard_without_apps() {
    let (note, hint) = no_apps_note(0).expect("a note when there are no apps");
    assert_eq!(note, "No apps yet.");
    assert_eq!(hint, "Create one: app-dist app create --name \"My App\"");
    assert!(no_apps_note(2).is_none());
}

#[test]
fn dashboard_without_releases() {
    assert_eq!(no_releases_note(0), Some("No releases yet.".to_string()));
    assert_eq!(no_releases_note(3), None);
}

#[test]
fn login_refuses_a_malformed_key_before_sending_it() {
    assert!(matches!(
        login_request("https://api.app-dist.com", "sk_123"),
        Err(LoginError::MalformedKey)
    ));
    assert_eq!(login_verdict("sk_123", true), Err(LoginError::MalformedKey));
}

#[test]
fn login_checks_the_key_with_whoami() {
    let req = login_request("https://api.app-dist.com", "apd_abc").expect("a well-formed key is checked");
    assert!(matches!(req.method, Method::Get));
    assert_eq!(req.url, "https://api.app-dist.com/api/v1/auth/whoami");
    assert!(req.body.is_none());
}

#[test]
fn login_stores_only_accepted_keys() {
    assert_eq!(login_verdict("apd_abc", true), Ok(()));
    assert_eq!(login_verdict("apd_abc", false), Err(LoginError::KeyRefused));
}

#[test]
fn config_is_searched_upward_to_the_root() {
    assert_eq!(
        config_search_paths("/Users/me/code/myapp"),
        vec![
            "/Users/me/code/myapp/app-dist.yml",
            "/Users/me/code/app-dist.yml",
            "/Users/me/app-dist.yml",
            "/Users/app-dist.yml",
            "/app-dist.yml",
        ]
    );
}

#[test]
fn config_search_from_the_root() {
    assert_eq!(config_search_paths("/"), vec!["/app-dist.yml"]);
    assert_eq!(config_search_paths("/srv"), vec!["/srv/app-dist.yml", "/app-dist.yml"]);
}

#[test]
fn config_search_from_a_relative_path() {
    assert_eq!(config_search_paths("a/b"), vec!["a/b/app-dist.yml", "a/app-dist.yml"]);
    assert_eq!(config_search_paths("a"), vec!["a/app-dist.yml"]);
}

#[test]
fn config_search_matches_path_ancestors() {
    let dir = std::path::Path::new("/Users/me/code/myapp");
    let expected: Vec<String> =
        dir.ancestors().map(|d| d.join("app-dist.yml").to_string_lossy().into_owned()).collect();
    assert_eq!(config_search_paths("/Users/me/code/myapp"), expected);
}
