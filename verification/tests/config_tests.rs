use btmanager::Config;

#[test]
fn add_device_binds_and_rebinding_replaces() {
    let mut config = Config::new();
    config.add_device(String::from("Speaker"), 0xAABBCC);
    assert_eq!(config.resolve("Speaker"), Some(0xAABBCC));
    config.add_device(String::from("Speaker"), 0x112233);
    assert_eq!(config.resolve("Speaker"), Some(0x112233));
    assert_eq!(config.device_count(), 1);
}

#[test]
fn remove_device_reports_whether_a_binding_existed() {
    let mut config = Config::new();
    config.add_device(String::from("Mouse"), 0x42);
    assert!(config.remove_device("Mouse"));
    assert_eq!(config.resolve("Mouse"), None);
    assert!(!config.remove_device("Mouse"));
}

#[test]
fn resolve_of_unbound_name_is_none() {
    let config = Config::new();
    assert_eq!(config.resolve("Nothing"), None);
}

#[test]
fn auto_connect_list_keeps_order_and_rejects_duplicates() {
    let mut config = Config::new();
    config.add_auto_connect(String::from("Speaker"));
    config.add_auto_connect(String::from("Mouse"));
    config.add_auto_connect(String::from("Speaker"));
    assert_eq!(config.auto_connect_list(), vec!["Speaker", "Mouse"]);
}

#[test]
fn remove_auto_connect_drops_only_the_named_entry() {
    let mut config = Config::new();
    config.add_auto_connect(String::from("Speaker"));
    config.add_auto_connect(String::from("Mouse"));
    config.remove_auto_connect("Speaker");
    assert_eq!(config.auto_connect_list(), vec!["Mouse"]);
    config.remove_auto_connect("Speaker");
    assert_eq!(config.auto_connect_list(), vec!["Mouse"]);
}

#[test]
fn auto_connect_targets_resolve_in_order_and_skip_unbound_names() {
    let mut config = Config::new();
    config.add_device(String::from("Speaker"), 0xA);
    config.add_device(String::from("Keyboard"), 0xB);
    config.add_auto_connect(String::from("Keyboard"));
    config.add_auto_connect(String::from("Ghost"));
    config.add_auto_connect(String::from("Speaker"));
    let targets = config.auto_connect_targets();
    assert_eq!(
        targets,
        vec![(String::from("Keyboard"), 0xB), (String::from("Speaker"), 0xA)]
    );
}
