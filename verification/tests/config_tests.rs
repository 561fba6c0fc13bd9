use pamusb::config::{Config, DeviceConfig, PerUserConfig};

fn per_user(uuids: &[&str]) -> PerUserConfig {
    PerUserConfig {
        devices: uuids.iter().map(|u| DeviceConfig { uuid: u.to_string() }).collect(),
    }
}

#[test]
fn empty_config_has_no_user() {
    let c = Config::new();
    assert!(c.get("alice").is_none());
}

#[test]
fn get_returns_inserted_entry() {
    let mut c = Config::new();
    c.insert("alice".to_string(), per_user(&["1111", "2222"]));
    c.insert("bob".to_string(), per_user(&["3333"]));
    let a = c.get("alice").unwrap();
    assert_eq!(a.device_uuids(), vec!["1111".to_string(), "2222".to_string()]);
    assert_eq!(c.get("bob").unwrap().device_uuids(), vec!["3333".to_string()]);
    assert!(c.get("carol").is_none());
    assert!(c.get("Alice").is_none());
}

#[test]
fn insert_replaces_earlier_entry() {
    let mut c = Config::new();
    c.insert("alice".to_string(), per_user(&["1111"]));
    c.insert("alice".to_string(), per_user(&["9999"]));
    assert_eq!(c.get("alice").unwrap().device_uuids(), vec!["9999".to_string()]);
}
