use portal_shell::vendor::get_lib_import_map;

#[test]
fn vendor_map_is_stable_and_idempotent() {
    let first = get_lib_import_map();
    let second = get_lib_import_map();
    assert_eq!(first.len(), second.len());
    assert_eq!(first.entries(), second.entries());
    for (key, url) in first.entries() {
        assert_eq!(second.get(key), Some(url));
    }
}

#[test]
fn vendor_map_holds_the_fixed_table() {
    let map = get_lib_import_map();
    assert_eq!(map.len(), 16);
    assert_eq!(
        map.get(&"react".to_string()),
        Some(&"/assets/root/js/vendors/react/18.3.1/umd/react.production.min.js".to_string())
    );
    assert_eq!(
        map.get(&"React".to_string()),
        Some(&"/assets/root/js/vendors/react/18.3.1/umd/react.production.min.js".to_string())
    );
    assert_eq!(
        map.get(&"react-dom/server".to_string()),
        Some(
            &"/assets/root/js/vendors/react-dom/18.3.1/umd/react-dom-server.browser.production.min.js"
                .to_string()
        )
    );
    assert_eq!(
        map.get(&"single-spa".to_string()),
        Some(&"/assets/root/js/vendors/single-spa/6.0.1/system/single-spa.min.js".to_string())
    );
    assert_eq!(
        map.get(&"moment".to_string()),
        Some(&"/assets/root/js/vendors/moment/2.29.1/moment.min.js".to_string())
    );
    assert_eq!(map.get(&"not-a-vendor".to_string()), None);
}
