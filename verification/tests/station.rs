use weather_exporter::provider::{
    AirPollutionData, Components, OpenWeatherMapAirPollutionData, OpenWeatherMapData,
    ProviderError, ProviderErrorKind, Weather, WeatherCondition,
};
use weather_exporter::registry::GaugeValue;
use weather_exporter::station::{BuildInfo, Station};

const B: f64 = 17.368;
const C: f64 = 238.88;

/// The Magnus approximation the exporter publishes.
fn dew_point(t: f64, rh: f64) -> f64 {
    let gamma = (rh / 100.0).ln() + B * t / (C + t);
    C * gamma / (B - gamma)
}

fn build_info() -> BuildInfo {
    BuildInfo {
        rustc_version: "1.80.0".to_owned(),
        compile_datetime: "2024-07-01T00:00:00Z".to_owned(),
        version: "0.1.0".to_owned(),
    }
}

fn new_station(period_secs: u64) -> Station {
    Station::new(period_secs, 1_700_000_000, build_info()).unwrap()
}

fn weather_payload(name: &str, temp: f64, humidity: u8, pressure: u16) -> OpenWeatherMapData {
    OpenWeatherMapData {
        main: Weather {
            temp_bits: temp.to_bits(),
            feels_like_bits: (temp - 1.0).to_bits(),
            temp_min_bits: (temp - 2.0).to_bits(),
            temp_max_bits: (temp + 2.0).to_bits(),
            pressure,
            grnd_level: pressure - 13,
            humidity,
        },
        dt: 1_700_000_100,
        name: name.to_owned(),
        weather: vec![WeatherCondition {
            main: "Clouds".to_owned(),
            description: "scattered clouds".to_owned(),
        }],
    }
}

fn pollution_payload(pm2_5: f64, pm10: f64) -> OpenWeatherMapAirPollutionData {
    OpenWeatherMapAirPollutionData {
        list: vec![AirPollutionData {
            dt: 1_700_000_200,
            components: Components {
                pm2_5_bits: pm2_5.to_bits(),
                pm10_bits: pm10.to_bits(),
            },
        }],
    }
}

fn fetch_failed() -> ProviderError {
    ProviderError {
        kind: ProviderErrorKind::Transport,
        detail: "connection refused".to_owned(),
    }
}

fn city(label: &str) -> Vec<String> {
    vec![label.to_owned()]
}

#[test]
fn startup_registers_fixed_gauges() {
    let st = new_station(600);
    assert_eq!(st.registry.gauge_count(), 15);
    assert!(st.registry.lookup(&"weather_temperature".to_owned()).is_some());
    assert!(st.registry.lookup(&"air_pollution_pm_2_5".to_owned()).is_some());
    assert!(st.registry.lookup(&"somewhere_else".to_owned()).is_none());
    assert_eq!(st.city, "unknown");
    // The start time and the build info are published once at startup.
    assert_eq!(
        st.registry.get(st.h_start_time, &Vec::new()),
        Some(GaugeValue::Int(1_700_000_000))
    );
    let build_labels = vec![
        "1.80.0".to_owned(),
        "2024-07-01T00:00:00Z".to_owned(),
        "0.1.0".to_owned(),
    ];
    assert_eq!(
        st.registry.get(st.h_build_info, &build_labels),
        Some(GaugeValue::Int(1))
    );
}

#[test]
fn weather_tick_reflects_fetched_values() {
    // A fetch of temp=20.0, humidity=50 must publish exactly those values
    // and the Magnus dew point, roughly 9.26 °C.
    let d = dew_point(20.0, 50.0);
    assert!((d - 9.26).abs() < 0.01);
    let mut st = new_station(600);
    st.apply_weather(Ok(weather_payload("Lisbon", 20.0, 50, 1013)), d.to_bits(), 1_700_000_300);
    assert_eq!(st.city, "Lisbon");
    let lisbon = city("Lisbon");
    assert_eq!(
        st.registry.get(st.h_temperature, &lisbon),
        Some(GaugeValue::Bits((20.0f64).to_bits()))
    );
    assert_eq!(st.registry.get(st.h_humidity, &lisbon), Some(GaugeValue::Int(50)));
    assert_eq!(st.registry.get(st.h_pressure, &lisbon), Some(GaugeValue::Int(1013)));
    assert_eq!(st.registry.get(st.h_pressure_grnd, &lisbon), Some(GaugeValue::Int(1000)));
    assert_eq!(
        st.registry.get(st.h_dew_point, &lisbon),
        Some(GaugeValue::Bits(d.to_bits()))
    );
    assert_eq!(
        st.registry.get(st.h_weather_updated, &lisbon),
        Some(GaugeValue::Int(1_700_000_300))
    );
    let condition = vec![
        "Lisbon".to_owned(),
        "Clouds".to_owned(),
        "scattered clouds".to_owned(),
    ];
    assert_eq!(st.registry.get(st.h_description, &condition), Some(GaugeValue::Int(1)));
}

#[test]
fn pollution_updates_under_last_city_when_weather_fails() {
    // First tick succeeds and resolves the city.
    let mut st = new_station(600);
    let d = dew_point(18.0, 60.0);
    st.tick(
        Ok(weather_payload("Lisbon", 18.0, 60, 1010)),
        d.to_bits(),
        1_000,
        Ok(pollution_payload(7.5, 14.0)),
        1_001,
    );
    // Second tick: weather fails, pollution succeeds.
    st.tick(
        Err(fetch_failed()),
        0,
        2_000,
        Ok(pollution_payload(9.5, 21.0)),
        2_001,
    );
    let lisbon = city("Lisbon");
    // Pollution series were written under the last-known city label.
    assert_eq!(
        st.registry.get(st.h_pm2_5, &lisbon),
        Some(GaugeValue::Bits((9.5f64).to_bits()))
    );
    assert_eq!(
        st.registry.get(st.h_pm10, &lisbon),
        Some(GaugeValue::Bits((21.0f64).to_bits()))
    );
    assert_eq!(st.registry.get(st.h_pollution_updated, &lisbon), Some(GaugeValue::Int(2_001)));
    // The weather series kept their previous values, stale but unchanged.
    assert_eq!(
        st.registry.get(st.h_temperature, &lisbon),
        Some(GaugeValue::Bits((18.0f64).to_bits()))
    );
    assert_eq!(st.registry.get(st.h_humidity, &lisbon), Some(GaugeValue::Int(60)));
    assert_eq!(st.registry.get(st.h_weather_updated, &lisbon), Some(GaugeValue::Int(1_000)));
}

#[test]
fn both_failures_change_nothing_and_sleep_the_full_period() {
    let mut st = new_station(600);
    let d = dew_point(18.0, 60.0);
    st.tick(
        Ok(weather_payload("Lisbon", 18.0, 60, 1010)),
        d.to_bits(),
        1_000,
        Ok(pollution_payload(7.5, 14.0)),
        1_001,
    );
    let lisbon = city("Lisbon");
    let before: Vec<Option<GaugeValue>> = vec![
        st.registry.get(st.h_temperature, &lisbon),
        st.registry.get(st.h_feels_like, &lisbon),
        st.registry.get(st.h_temp_min, &lisbon),
        st.registry.get(st.h_temp_max, &lisbon),
        st.registry.get(st.h_humidity, &lisbon),
        st.registry.get(st.h_pressure, &lisbon),
        st.registry.get(st.h_pressure_grnd, &lisbon),
        st.registry.get(st.h_dew_point, &lisbon),
        st.registry.get(st.h_weather_updated, &lisbon),
        st.registry.get(st.h_pm2_5, &lisbon),
        st.registry.get(st.h_pm10, &lisbon),
        st.registry.get(st.h_pollution_updated, &lisbon),
        st.registry.get(st.h_start_time, &Vec::new()),
    ];
    let sleep = st.tick(Err(fetch_failed()), 0, 2_000, Err(fetch_failed()), 2_001);
    // The loop still sleeps the full configured period: no tight error loop.
    assert_eq!(sleep, 600);
    let after: Vec<Option<GaugeValue>> = vec![
        st.registry.get(st.h_temperature, &lisbon),
        st.registry.get(st.h_feels_like, &lisbon),
        st.registry.get(st.h_temp_min, &lisbon),
        st.registry.get(st.h_temp_max, &lisbon),
        st.registry.get(st.h_humidity, &lisbon),
        st.registry.get(st.h_pressure, &lisbon),
        st.registry.get(st.h_pressure_grnd, &lisbon),
        st.registry.get(st.h_dew_point, &lisbon),
        st.registry.get(st.h_weather_updated, &lisbon),
        st.registry.get(st.h_pm2_5, &lisbon),
        st.registry.get(st.h_pm10, &lisbon),
        st.registry.get(st.h_pollution_updated, &lisbon),
        st.registry.get(st.h_start_time, &Vec::new()),
    ];
    assert_eq!(before, after);
    assert_eq!(st.city, "Lisbon");
}

#[test]
fn pollution_before_first_weather_success_uses_placeholder() {
    let mut st = new_station(600);
    st.apply_air_pollution(Ok(pollution_payload(3.0, 6.0)), 500);
    assert_eq!(
        st.registry.get(st.h_pm2_5, &city("unknown")),
        Some(GaugeValue::Bits((3.0f64).to_bits()))
    );
}

#[test]
fn city_label_change_orphans_old_series() {
    let mut st = new_station(600);
    st.apply_weather(Ok(weather_payload("Lisbon", 20.0, 50, 1013)), 0, 1_000);
    st.apply_weather(Ok(weather_payload("Porto", 17.0, 70, 1009)), 0, 2_000);
    assert_eq!(st.city, "Porto");
    // The old label's series stays behind, stale.
    assert_eq!(
        st.registry.get(st.h_temperature, &city("Lisbon")),
        Some(GaugeValue::Bits((20.0f64).to_bits()))
    );
    assert_eq!(
        st.registry.get(st.h_temperature, &city("Porto")),
        Some(GaugeValue::Bits((17.0f64).to_bits()))
    );
}

#[test]
fn end_to_end_one_tick_then_failure_keeps_value() {
    // Start from the configuration values of the scenario: LAT=0, LON=0,
    // APPID=x, PERIOD=1.
    let c = weather_exporter::config::build_config(
        Some("0".to_owned()),
        Some("0".to_owned()),
        Some("x".to_owned()),
        None,
        Some("1".to_owned()),
    )
    .unwrap();
    assert_eq!(c.period_secs, 1);
    let mut st = Station::new(c.period_secs, 0, build_info()).unwrap();
    let d = dew_point(23.5, 40.0);
    let sleep = st.tick(
        Ok(weather_payload("Atlantis", 23.5, 40, 1020)),
        d.to_bits(),
        10,
        Err(fetch_failed()),
        11,
    );
    assert_eq!(sleep, 1);
    // The exposed registry holds a weather_temperature series for the
    // resolved city, equal to the payload's temperature.
    let h = st.registry.lookup(&"weather_temperature".to_owned()).unwrap();
    assert_eq!(
        st.registry.get(h, &city("Atlantis")),
        Some(GaugeValue::Bits((23.5f64).to_bits()))
    );
    // A second tick where the provider fails leaves the value unchanged.
    let sleep = st.tick(Err(fetch_failed()), 0, 20, Err(fetch_failed()), 21);
    assert_eq!(sleep, 1);
    assert_eq!(
        st.registry.get(h, &city("Atlantis")),
        Some(GaugeValue::Bits((23.5f64).to_bits()))
    );
}
