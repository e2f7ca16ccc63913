use clepsydra::settings::{parse_u16, Settings, SettingsError, SettingsSource, RECENT_READINGS_LIMIT};

fn nothing_set() -> SettingsSource {
    SettingsSource {
        clickhouse_url: None,
        clickhouse_db: None,
        mqtt_broker: None,
        mqtt_port: None,
        mqtt_topic: None,
        server_port: None,
    }
}

#[test]
fn defaults_apply_when_nothing_is_set() {
    let s = Settings::resolve(nothing_set()).unwrap();
    assert_eq!(s.clickhouse_url, "http://localhost:8123");
    assert_eq!(s.clickhouse_db, "clepsydra");
    assert_eq!(s.mqtt_broker, "localhost");
    assert_eq!(s.mqtt_port, 1883);
    assert_eq!(s.mqtt_topic, "clepsydra/sensor/+");
    assert_eq!(s.server_port, 8080);
    assert_eq!(RECENT_READINGS_LIMIT, 60);
}

#[test]
fn environment_values_override_defaults() {
    let mut src = nothing_set();
    src.clickhouse_url = Some("http://db:9000".to_string());
    src.mqtt_broker = Some("broker".to_string());
    src.mqtt_port = Some("+1884".to_string());
    src.server_port = Some("80".to_string());
    let s = Settings::resolve(src).unwrap();
    assert_eq!(s.clickhouse_url, "http://db:9000");
    assert_eq!(s.clickhouse_db, "clepsydra");
    assert_eq!(s.mqtt_broker, "broker");
    assert_eq!(s.mqtt_port, 1884);
    assert_eq!(s.server_port, 80);
}

#[test]
fn invalid_ports_are_refused() {
    for bad in ["", "65536", " 80", "80 ", "-1", "+", "eighty", "8o"] {
        let mut src = nothing_set();
        src.mqtt_port = Some(bad.to_string());
        assert_eq!(Settings::resolve(src).err(), Some(SettingsError::InvalidMqttPort));
        let mut src = nothing_set();
        src.server_port = Some(bad.to_string());
        assert_eq!(Settings::resolve(src).err(), Some(SettingsError::InvalidServerPort));
    }
    let mut src = nothing_set();
    src.mqtt_port = Some("x".to_string());
    src.server_port = Some("y".to_string());
    assert_eq!(Settings::resolve(src).err(), Some(SettingsError::InvalidMqttPort));
    let mut src = nothing_set();
    src.server_port = Some("65535".to_string());
    assert_eq!(Settings::resolve(src).unwrap().server_port, 65535);
}

#[test]
fn port_parsing_follows_std() {
    for text in ["", "+", "-0", "-1", " 1", "1 ", "1_0", "0x10", "65536", "99999999", "١٢", "+-1", "++1"] {
        assert_eq!(parse_u16(text), text.parse::<u16>().ok(), "{:?}", text);
    }
    for text in ["0", "+0", "00080", "+65535", "65535", "1883", "8080", "0000000000000065535"] {
        assert_eq!(parse_u16(text), text.parse::<u16>().ok(), "{:?}", text);
        assert!(parse_u16(text).is_some());
    }
    assert_eq!(parse_u16("+1883"), Some(1883));
}
