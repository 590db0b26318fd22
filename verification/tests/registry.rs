use weather_exporter::registry::{GaugeValue, Registry, RegistryError};

fn labels(values: &[&str]) -> Vec<String> {
    values.iter().map(|v| (*v).to_owned()).collect()
}

#[test]
fn set_then_get_round_trip() {
    let mut r = Registry::new();
    let h = r
        .register_gauge("g".to_owned(), "a gauge".to_owned(), labels(&["city"]))
        .unwrap();
    assert_eq!(r.get(h, &labels(&["Berlin"])), None);
    r.set(h, labels(&["Berlin"]), GaugeValue::Bits((21.5f64).to_bits()))
        .unwrap();
    assert_eq!(
        r.get(h, &labels(&["Berlin"])),
        Some(GaugeValue::Bits((21.5f64).to_bits()))
    );
}

#[test]
fn overwrite_replaces_value() {
    let mut r = Registry::new();
    let h = r
        .register_gauge("g".to_owned(), "a gauge".to_owned(), labels(&["city"]))
        .unwrap();
    r.set(h, labels(&["Berlin"]), GaugeValue::Int(1)).unwrap();
    r.set(h, labels(&["Berlin"]), GaugeValue::Int(2)).unwrap();
    assert_eq!(r.get(h, &labels(&["Berlin"])), Some(GaugeValue::Int(2)));
    assert_eq!(r.series_count(h), 1);
}

#[test]
fn label_tuples_are_independent_series() {
    let mut r = Registry::new();
    let h = r
        .register_gauge("g".to_owned(), "a gauge".to_owned(), labels(&["city"]))
        .unwrap();
    r.set(h, labels(&["Berlin"]), GaugeValue::Int(1)).unwrap();
    r.set(h, labels(&["Paris"]), GaugeValue::Int(2)).unwrap();
    assert_eq!(r.get(h, &labels(&["Berlin"])), Some(GaugeValue::Int(1)));
    assert_eq!(r.get(h, &labels(&["Paris"])), Some(GaugeValue::Int(2)));
    assert_eq!(r.series_count(h), 2);
}

#[test]
fn duplicate_name_is_refused_fast() {
    // Same name, different label dimensionality: must fail, never merge.
    let mut r = Registry::new();
    let h = r
        .register_gauge("g".to_owned(), "a gauge".to_owned(), labels(&["city"]))
        .unwrap();
    let e = r
        .register_gauge("g".to_owned(), "other".to_owned(), labels(&["a", "b"]))
        .unwrap_err();
    assert_eq!(e, RegistryError::DuplicateName);
    // The registry is exactly as the first registration left it.
    assert_eq!(r.gauge_count(), 1);
    assert_eq!(r.lookup(&"g".to_owned()), Some(h));
    assert_eq!(r.gauge_dims(h), &labels(&["city"]));
    assert_eq!(r.gauge_help(h).as_str(), "a gauge");
}

#[test]
fn set_checks_handle_and_cardinality() {
    let mut r = Registry::new();
    let h = r
        .register_gauge("g".to_owned(), "a gauge".to_owned(), labels(&["city"]))
        .unwrap();
    let e = r.set(h, labels(&["Berlin", "extra"]), GaugeValue::Int(1)).unwrap_err();
    assert_eq!(e, RegistryError::LabelCardinality);
    let e = r.set(h, labels(&[]), GaugeValue::Int(1)).unwrap_err();
    assert_eq!(e, RegistryError::LabelCardinality);
    let unknown = weather_exporter::registry::GaugeHandle(7);
    let e = r.set(unknown, labels(&["Berlin"]), GaugeValue::Int(1)).unwrap_err();
    assert_eq!(e, RegistryError::UnknownGauge);
    // Refused writes left nothing behind.
    assert_eq!(r.series_count(h), 0);
}

#[test]
fn lookup_by_name() {
    let mut r = Registry::new();
    let a = r
        .register_gauge("alpha".to_owned(), "first".to_owned(), labels(&[]))
        .unwrap();
    let b = r
        .register_gauge("beta".to_owned(), "second".to_owned(), labels(&["city"]))
        .unwrap();
    assert_eq!(r.lookup(&"alpha".to_owned()), Some(a));
    assert_eq!(r.lookup(&"beta".to_owned()), Some(b));
    assert_eq!(r.lookup(&"gamma".to_owned()), None);
    assert_eq!(r.gauge_name(b).as_str(), "beta");
}

#[test]
fn series_iteration_sees_all_series() {
    let mut r = Registry::new();
    let h = r
        .register_gauge("g".to_owned(), "a gauge".to_owned(), labels(&["city"]))
        .unwrap();
    r.set(h, labels(&["Berlin"]), GaugeValue::Int(1)).unwrap();
    r.set(h, labels(&["Paris"]), GaugeValue::Int(2)).unwrap();
    let mut seen: Vec<(Vec<String>, GaugeValue)> = Vec::new();
    for i in 0..r.series_count(h) {
        let (l, v) = r.series_at(h, i);
        seen.push((l.clone(), v));
    }
    seen.sort_by(|x, y| x.0.cmp(&y.0));
    assert_eq!(
        seen,
        vec![
            (labels(&["Berlin"]), GaugeValue::Int(1)),
            (labels(&["Paris"]), GaugeValue::Int(2)),
        ]
    );
}
