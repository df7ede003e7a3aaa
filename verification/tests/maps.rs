use portal_shell::string_map::StringMap;
use portal_shell::manifest::{manifest_targets, string_map_of_entries, JSON_CONTENT_TYPE, USER_AGENT};
use portal_shell::config::Config;

#[test]
fn insert_get_and_overwrite() {
    let mut map = StringMap::new();
    assert_eq!(map.len(), 0);
    map.insert("a".to_string(), "1".to_string());
    map.insert("b".to_string(), "2".to_string());
    assert_eq!(map.len(), 2);
    assert_eq!(map.get(&"a".to_string()), Some(&"1".to_string()));
    assert_eq!(map.get(&"b".to_string()), Some(&"2".to_string()));
    assert_eq!(map.get(&"c".to_string()), None);
    assert!(map.contains_key(&"a".to_string()));
    assert!(!map.contains_key(&"c".to_string()));
    map.insert("a".to_string(), "3".to_string());
    assert_eq!(map.len(), 2);
    assert_eq!(map.get(&"a".to_string()), Some(&"3".to_string()));
}

#[test]
fn map_of_entry_list_keeps_the_last_value() {
    let entries = vec![
        ("x".to_string(), "1".to_string()),
        ("y".to_string(), "2".to_string()),
        ("x".to_string(), "3".to_string()),
    ];
    let map = string_map_of_entries(&entries);
    assert_eq!(map.len(), 2);
    assert_eq!(map.get(&"x".to_string()), Some(&"3".to_string()));
    assert_eq!(map.get(&"y".to_string()), Some(&"2".to_string()));
}

#[test]
fn targets_follow_the_fixed_source_order() {
    let config = Config {
        port: 1,
        frontend_dir: "/f".to_string(),
        manifest_cache: false,
        apm_manifest_url: "http://a".to_string(),
        notifications_manifest_url: "http://n".to_string(),
        comments_manifest_url: "http://c".to_string(),
        admin_manifest_url: "http://d".to_string(),
        ga_tag_id: None,
        stripe_publishable_key: "pk_test_123".to_string(),
        new_relic_app_name: "app".to_string(),
        new_relic_license_key: None,
    };
    let targets = manifest_targets(&config);
    assert_eq!(
        targets,
        vec![
            ("apm".to_string(), "http://a".to_string()),
            ("notifications".to_string(), "http://n".to_string()),
            ("comments".to_string(), "http://c".to_string()),
            ("admin".to_string(), "http://d".to_string()),
        ]
    );
}

#[test]
fn fetch_header_constants() {
    assert!(USER_AGENT.starts_with("Mozilla/5.0"));
    assert_eq!(JSON_CONTENT_TYPE, "application/json");
}
