use chatto_desktop::settings::{
    notifications_enabled, notifications_setting, server_url_setting, stored_server_url, StoredValue,
};
use chatto_desktop::zoom::{next_zoom_level, restored_zoom_level, zoom_setting, ZOOM_DEFAULT, ZOOM_MAX, ZOOM_MIN};

#[test]
fn zoom_in_and_out_by_steps() {
    assert_eq!(next_zoom_level(100, 10), 110);
    assert_eq!(next_zoom_level(110, -10), 100);
    assert_eq!(next_zoom_level(100, -10), 90);
}

#[test]
fn zoom_reset_gives_default() {
    assert_eq!(next_zoom_level(250, 0), ZOOM_DEFAULT);
    assert_eq!(next_zoom_level(30, 0), 100);
}

#[test]
fn zoom_is_held_in_range() {
    assert_eq!(next_zoom_level(300, 10), ZOOM_MAX);
    assert_eq!(next_zoom_level(30, -10), ZOOM_MIN);
    assert_eq!(next_zoom_level(295, 10), 300);
    assert_eq!(next_zoom_level(35, -10), 30);
    assert_eq!(next_zoom_level(100, 1000), 300);
}

#[test]
fn zoom_in_then_out_restores_level() {
    for level in 30..=290 {
        assert_eq!(next_zoom_level(next_zoom_level(level, 10), -10), level);
    }
}

#[test]
fn zoom_restore_from_store() {
    assert_eq!(restored_zoom_level(&Some(StoredValue::Integer(150))), Some(150));
    assert_eq!(restored_zoom_level(&Some(StoredValue::Integer(5))), Some(30));
    assert_eq!(restored_zoom_level(&Some(StoredValue::Integer(1000))), Some(300));
    assert_eq!(restored_zoom_level(&Some(StoredValue::Integer(-7))), Some(30));
    assert_eq!(restored_zoom_level(&Some(StoredValue::Text("150".to_string()))), None);
    assert_eq!(restored_zoom_level(&None), None);
}

#[test]
fn zoom_restore_cuts_to_i32() {
    // 2^32 + 120 is cut to 120 before it is held in range
    assert_eq!(restored_zoom_level(&Some(StoredValue::Integer((1i64 << 32) + 120))), Some(120));
}

#[test]
fn zoom_store_then_restore() {
    for level in [30, 100, 170, 300] {
        assert_eq!(restored_zoom_level(&Some(zoom_setting(level))), Some(level));
    }
}

#[test]
fn notifications_default_on() {
    assert!(notifications_enabled(&None));
    assert!(notifications_enabled(&Some(StoredValue::Null)));
    assert!(notifications_enabled(&Some(StoredValue::Text("false".to_string()))));
    assert!(notifications_enabled(&Some(StoredValue::Integer(0))));
}

#[test]
fn notifications_set_then_get() {
    assert!(!notifications_enabled(&Some(notifications_setting(false))));
    assert!(notifications_enabled(&Some(notifications_setting(true))));
}

#[test]
fn server_url_set_then_get() {
    let stored = Some(server_url_setting("https://chat.example.org"));
    assert_eq!(stored_server_url(&stored), Some("https://chat.example.org".to_string()));
    assert_eq!(stored_server_url(&None), None);
    assert_eq!(stored_server_url(&Some(StoredValue::Bool(true))), None);
}
