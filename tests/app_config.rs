use hospital_bridge::config::{
    get_app_config, get_db_path, get_db_url, get_sync_interval_minutes, parse_bounded, AppConfig,
    AppState,
};

#[test]
fn parse_plain_and_signed() {
    assert_eq!(parse_bounded("42", 100), Some(42));
    assert_eq!(parse_bounded("+7", 100), Some(7));
    assert_eq!(parse_bounded("0", 0), Some(0));
}

#[test]
fn parse_rejects_malformed() {
    assert_eq!(parse_bounded("", 100), None);
    assert_eq!(parse_bounded("+", 100), None);
    assert_eq!(parse_bounded("-1", 100), None);
    assert_eq!(parse_bounded(" 5", 100), None);
    assert_eq!(parse_bounded("5x", 100), None);
}

#[test]
fn parse_respects_bound() {
    assert_eq!(parse_bounded("4294967295", u32::MAX as u64), Some(4294967295));
    assert_eq!(parse_bounded("4294967296", u32::MAX as u64), None);
    assert_eq!(parse_bounded("18446744073709551615", u64::MAX), Some(u64::MAX));
    assert_eq!(parse_bounded("18446744073709551616", u64::MAX), None);
}

#[test]
fn sync_interval_setting() {
    assert_eq!(get_sync_interval_minutes(None), 60);
    assert_eq!(get_sync_interval_minutes(Some("15")), 15);
    assert_eq!(get_sync_interval_minutes(Some("soon")), 60);
}

#[test]
fn resolve_configuration() {
    let c = AppConfig::resolve(
        "/opt/app/data".to_string(),
        "/opt/app/data/database.db".to_string(),
        Some("30"),
        Some("192.168.1.20".to_string()),
    );
    assert_eq!(c.db_url, "sqlite:/opt/app/data/database.db");
    assert_eq!(c.db_path, "/opt/app/data/database.db");
    assert_eq!(c.data_dir, "/opt/app/data");
    assert_eq!(c.sync_interval_minutes, 30);
    assert_eq!(c.ip_address, "192.168.1.20");
    assert_eq!(c.port, 14200);
}

#[test]
fn resolve_falls_back() {
    let c = AppConfig::resolve("d".to_string(), "d/database.db".to_string(), Some("99999999999"), None);
    assert_eq!(c.sync_interval_minutes, 60);
    assert_eq!(c.ip_address, "127.0.0.1");
    let state = AppState::new(c);
    assert_eq!(state.config.port, 14200);
}

#[test]
fn current_address_replaces_only_when_found() {
    let c = AppConfig::resolve("d".to_string(), "p".to_string(), None, Some("10.0.0.1".to_string()));
    let same = c.clone().with_current_address(None);
    assert_eq!(same.ip_address, "10.0.0.1");
    let moved = c.with_current_address(Some("10.0.0.9".to_string()));
    assert_eq!(moved.ip_address, "10.0.0.9");
    assert_eq!(moved.db_url, "sqlite:p");
    assert_eq!(moved.sync_interval_minutes, 60);
}

#[test]
fn getters_read_the_state() {
    let state = AppState::new(AppConfig::resolve(
        "/srv/data".to_string(),
        "/srv/data/database.db".to_string(),
        None,
        None,
    ));
    assert_eq!(get_db_url(&state), "sqlite:/srv/data/database.db");
    assert_eq!(get_db_path(&state), "/srv/data/database.db");
    let shown = get_app_config(&state, Some("172.16.0.4".to_string()));
    assert_eq!(shown.ip_address, "172.16.0.4");
    assert_eq!(state.config.ip_address, "127.0.0.1");
    assert_eq!(get_app_config(&state, None).ip_address, "127.0.0.1");
    assert_eq!(shown.data_dir, "/srv/data");
}
