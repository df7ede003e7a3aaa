use portal_shell::compose::{build_page_response, compose_page, get_root_config_url, no_store_headers};
use portal_shell::config::Config;
use portal_shell::error::Error;
use portal_shell::manifest::FetchOutcome;

fn test_config(ga_tag_id: Option<&str>) -> Config {
    Config {
        port: 8080,
        frontend_dir: "/srv/frontend".to_string(),
        manifest_cache: false,
        apm_manifest_url: "http://portals/apm/assets.json".to_string(),
        notifications_manifest_url: "http://portals/notifications/assets.json".to_string(),
        comments_manifest_url: "http://portals/comments/assets.json".to_string(),
        admin_manifest_url: "http://portals/admin/assets.json".to_string(),
        ga_tag_id: ga_tag_id.map(|s| s.to_string()),
        stripe_publishable_key: "pk_test_123".to_string(),
        new_relic_app_name: "portal-shell".to_string(),
        new_relic_license_key: None,
    }
}

fn good_outcome(name: &str) -> (String, FetchOutcome) {
    (
        name.to_string(),
        FetchOutcome::Response {
            status: 200,
            body: format!(
                "{{\"files\":{{\"main.js\":\"/js/{}.js\",\"main.css\":\"/css/{}.css\"}}}}",
                name, name
            ),
        },
    )
}

#[test]
fn root_config_round_trip() {
    let root = get_root_config_url("{\"url\":\"https://x/root.js\"}").unwrap();
    assert_eq!(root.url, "https://x/root.js");
}

#[test]
fn root_config_rejects_malformed_text() {
    match get_root_config_url("not json") {
        Ok(_) => panic!("parse must fail"),
        Err(Error::RootConfigError(msg)) => {
            assert!(msg.starts_with("Unable to parse root config file - "));
        }
        Err(_) => panic!("expected a root-config error"),
    }
}

#[test]
fn root_config_rejects_missing_url() {
    assert!(get_root_config_url("{\"path\":\"https://x/root.js\"}").is_err());
    assert!(get_root_config_url("{\"url\":7}").is_err());
}

#[test]
fn compose_page_happy_path() {
    let config = test_config(Some("GA-1234"));
    let outcomes = vec![
        good_outcome("apm"),
        good_outcome("notifications"),
        good_outcome("comments"),
        good_outcome("admin"),
    ];
    let model = match compose_page(&config, &outcomes, Ok("{\"url\":\"https://x/root.js\"}")) {
        Ok(model) => model,
        Err(e) => panic!("composition failed: {}", e.message()),
    };
    assert_eq!(model.spa_config_url, "https://x/root.js");
    assert_eq!(model.ga_tag_id, Some("GA-1234".to_string()));
    assert_eq!(model.stripe_publishable_key, "pk_test_123");
    assert_eq!(model.portals.len(), 4);
    assert_eq!(
        model.portals.get(&"@portal/comments".to_string()),
        Some(&"/js/comments.js".to_string())
    );
    assert_eq!(model.import_map.len(), 16);
    assert_eq!(model.css_files.len(), 4);
}

#[test]
fn compose_page_keeps_absent_analytics_tag_absent() {
    let config = test_config(None);
    let outcomes = vec![good_outcome("apm")];
    let model = compose_page(&config, &outcomes, Ok("{\"url\":\"/root.js\"}")).unwrap();
    assert_eq!(model.ga_tag_id, None);
}

#[test]
fn compose_page_fails_on_first_bad_source() {
    let config = test_config(None);
    let outcomes = vec![
        good_outcome("apm"),
        (
            "notifications".to_string(),
            FetchOutcome::Response {
                status: 503,
                body: "unavailable".to_string(),
            },
        ),
        good_outcome("comments"),
        good_outcome("admin"),
    ];
    match compose_page(&config, &outcomes, Ok("{\"url\":\"/root.js\"}")) {
        Ok(_) => panic!("composition must fail"),
        Err(Error::ManifestError(msg)) => {
            assert_eq!(msg, "Unable to fetch asset manifest for notifications. Error: 503");
        }
        Err(_) => panic!("expected a manifest error"),
    }
}

#[test]
fn compose_page_fails_on_unreadable_root_config() {
    let config = test_config(None);
    let outcomes = vec![good_outcome("apm")];
    match compose_page(&config, &outcomes, Err("os error 2: no such file")) {
        Ok(_) => panic!("composition must fail"),
        Err(Error::RootConfigError(msg)) => {
            assert_eq!(
                msg,
                "Unable to read root config file - os error 2: no such file"
            );
        }
        Err(_) => panic!("expected a root-config error"),
    }
}

#[test]
fn compose_page_fails_on_malformed_root_config() {
    let config = test_config(None);
    let outcomes = vec![good_outcome("apm")];
    match compose_page(&config, &outcomes, Ok("{}")) {
        Ok(_) => panic!("composition must fail"),
        Err(Error::RootConfigError(msg)) => {
            assert_eq!(
                msg,
                "Unable to parse root config file - no url string in the document"
            );
        }
        Err(_) => panic!("expected a root-config error"),
    }
}

#[test]
fn response_carries_all_no_store_headers() {
    let response = build_page_response("<html></html>".to_string());
    assert_eq!(response.status, 200);
    assert_eq!(response.body, "<html></html>");
    assert_eq!(
        response.headers,
        vec![
            ("Surrogate-Control".to_string(), "no-store".to_string()),
            (
                "Cache-Control".to_string(),
                "no-store, no-cache, must-revalidate, proxy-revalidate".to_string()
            ),
            ("Pragma".to_string(), "no-cache".to_string()),
            ("Expires".to_string(), "0".to_string()),
        ]
    );
}

#[test]
fn no_store_headers_do_not_depend_on_the_document() {
    let a = build_page_response(String::new());
    let b = build_page_response("anything at all".to_string());
    assert_eq!(a.headers, b.headers);
    assert_eq!(a.headers, no_store_headers());
}
