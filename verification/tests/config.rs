use weather_exporter::config::{build_config, parse_u64, ConfigError, DEFAULT_PERIOD_SECS, DEFAULT_PORT};

#[test]
fn parse_plain_numbers() {
    assert_eq!(parse_u64("0"), Some(0));
    assert_eq!(parse_u64("1"), Some(1));
    assert_eq!(parse_u64("600"), Some(600));
    assert_eq!(parse_u64("9185"), Some(9185));
    assert_eq!(parse_u64("007"), Some(7));
}

#[test]
fn parse_u64_boundaries() {
    assert_eq!(parse_u64("18446744073709551615"), Some(u64::MAX));
    assert_eq!(parse_u64("18446744073709551616"), None);
    assert_eq!(parse_u64("99999999999999999999999"), None);
}

#[test]
fn parse_rejects_non_digits() {
    assert_eq!(parse_u64(""), None);
    assert_eq!(parse_u64(" 5"), None);
    assert_eq!(parse_u64("5 "), None);
    assert_eq!(parse_u64("+5"), None);
    assert_eq!(parse_u64("-5"), None);
    assert_eq!(parse_u64("12a"), None);
    assert_eq!(parse_u64("1.5"), None);
    assert_eq!(parse_u64("六百"), None);
}

#[test]
fn config_takes_all_values() {
    let c = build_config(
        Some("48.1".to_owned()),
        Some("11.5".to_owned()),
        Some("SECRET-REDACTED".to_owned()),
        Some("9000".to_owned()),
        Some("60".to_owned()),
    )
    .unwrap();
    assert_eq!(c.lat, "48.1");
    assert_eq!(c.lon, "11.5");
    assert_eq!(c.appid, "SECRET-REDACTED");
    assert_eq!(c.units, "metric");
    assert_eq!(c.port, 9000);
    assert_eq!(c.period_secs, 60);
}

#[test]
fn config_defaults_fill_port_and_period() {
    let c = build_config(
        Some("0".to_owned()),
        Some("0".to_owned()),
        Some("x".to_owned()),
        None,
        None,
    )
    .unwrap();
    assert_eq!(c.port, DEFAULT_PORT);
    assert_eq!(c.port, 9185);
    assert_eq!(c.period_secs, DEFAULT_PERIOD_SECS);
    assert_eq!(c.period_secs, 600);
}

#[test]
fn config_requires_lat_lon_appid() {
    let e = build_config(None, None, None, None, None).unwrap_err();
    assert_eq!(e, ConfigError::MissingLat);
    let e = build_config(Some("0".to_owned()), None, None, None, None).unwrap_err();
    assert_eq!(e, ConfigError::MissingLon);
    let e = build_config(Some("0".to_owned()), Some("0".to_owned()), None, None, None).unwrap_err();
    assert_eq!(e, ConfigError::MissingAppid);
}

#[test]
fn config_rejects_bad_port() {
    let e = build_config(
        Some("0".to_owned()),
        Some("0".to_owned()),
        Some("x".to_owned()),
        Some("70000".to_owned()),
        None,
    )
    .unwrap_err();
    assert_eq!(e, ConfigError::BadPort);
    let e = build_config(
        Some("0".to_owned()),
        Some("0".to_owned()),
        Some("x".to_owned()),
        Some("9185a".to_owned()),
        None,
    )
    .unwrap_err();
    assert_eq!(e, ConfigError::BadPort);
}

#[test]
fn config_rejects_bad_period() {
    let e = build_config(
        Some("0".to_owned()),
        Some("0".to_owned()),
        Some("x".to_owned()),
        None,
        Some("10s".to_owned()),
    )
    .unwrap_err();
    assert_eq!(e, ConfigError::BadPeriod);
    let e = build_config(
        Some("0".to_owned()),
        Some("0".to_owned()),
        Some("x".to_owned()),
        None,
        Some("".to_owned()),
    )
    .unwrap_err();
    assert_eq!(e, ConfigError::BadPeriod);
}
