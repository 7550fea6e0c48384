use serde_json::Value;
use vyges_remap::stats::{delta_json, parse_stats, pct, stat_json, stats_from, Change, Stats};

/// The arithmetic on two counts that `delta_json` takes.
fn change(before: f64, after: f64) -> Change {
    Change {
        difference: Value::from(after - before),
        percent: Value::from((after - before) / before * 100.0),
    }
}

fn delta(before: f64, after: f64) -> Value {
    delta_json(&Value::from(before), &Value::from(after), change(before, after))
}

#[test]
fn parse_stats_reads_emap_sidecar() {
    let s = parse_stats(r#"{"gates":256,"area":1024.0,"multioutput_gates":1}"#).unwrap();
    assert_eq!(s.gates, 256.0);
    assert_eq!(s.area, 1024.0);
    assert_eq!(s.mo, 1.0);
    assert!(parse_stats("not json").is_none());
    // multioutput_gates optional → defaults 0
    assert_eq!(parse_stats(r#"{"gates":1,"area":2}"#).unwrap().mo, 0.0);
}

#[test]
fn delta_computes_pct() {
    let d = delta(257.0, 256.0);
    assert_eq!(d["abs"], Value::from(-1.0));
    assert!((d["pct"].as_f64().unwrap() - (-0.389)).abs() < 0.01);
    assert_eq!(delta(0.0, 5.0)["pct"], Value::Null); // div-by-zero → null
}

#[test]
fn counts_come_out_as_doubles() {
    let s = parse_stats(r#"{"gates":256,"area":-3,"multioutput_gates":7}"#).unwrap();
    assert_eq!(s.gates, Value::from(256.0));
    assert_ne!(s.gates, Value::from(256));
    assert_eq!(s.area, Value::from(-3.0));
    assert_eq!(s.mo, Value::from(7.0));
    assert_eq!(parse_stats(r#"{"gates":1,"area":2}"#).unwrap().mo, Value::from(0.0));
}

#[test]
fn gates_and_area_have_to_be_numbers() {
    assert!(parse_stats(r#"{"area":2}"#).is_none());
    assert!(parse_stats(r#"{"gates":1}"#).is_none());
    assert!(parse_stats(r#"{"gates":"1","area":2}"#).is_none());
    assert!(parse_stats(r#"{"gates":1,"area":null}"#).is_none());
    assert!(parse_stats("[1, 2]").is_none());
    assert!(parse_stats("").is_none());
}

#[test]
fn multioutput_gates_that_are_no_number_count_as_zero() {
    let s = parse_stats(r#"{"gates":1,"area":2,"multioutput_gates":"many"}"#).unwrap();
    assert_eq!(s.mo, Value::from(0.0));
}

#[test]
fn stats_are_read_from_a_value() {
    let mut v = Value::Null;
    v["gates"] = Value::from(12);
    assert!(stats_from(&v).is_none());
    v["area"] = Value::from(2.5);
    let s = stats_from(&v).unwrap();
    assert_eq!(s.gates, Value::from(12.0));
    assert_eq!(s.area, Value::from(2.5));
    assert_eq!(s.mo, Value::from(0.0));
}

#[test]
fn there_is_no_percentage_of_either_zero() {
    assert!(pct(&Value::from(0.0), Value::from(1.0)).is_none());
    assert!(pct(&Value::from(-0.0), Value::from(1.0)).is_none());
    assert!(pct(&Value::from(0), Value::from(1.0)).is_none());
    assert_eq!(pct(&Value::from(0.5), Value::from(1.0)), Some(Value::from(1.0)));
}

#[test]
fn stat_json_names_the_counts() {
    let s = Stats { gates: Value::from(3.0), area: Value::from(7.5), mo: Value::from(1.0) };
    let v = stat_json(&s);
    assert_eq!(
        v.to_string(),
        r#"{"cell_area":7.5,"cell_count":3.0,"multioutput_gates":1.0}"#
    );
}

#[test]
fn delta_json_gives_both_counts_and_the_change() {
    assert_eq!(
        delta(200.0, 150.0).to_string(),
        r#"{"abs":-50.0,"after":150.0,"before":200.0,"pct":-25.0}"#
    );
    assert_eq!(
        delta(0.0, 5.0).to_string(),
        r#"{"abs":5.0,"after":5.0,"before":0.0,"pct":null}"#
    );
}

#[test]
fn a_change_that_is_not_finite_is_null() {
    let d = delta(-1.0e308, 1.0e308);
    assert_eq!(d["abs"], Value::Null);
    assert_eq!(d["pct"], Value::Null);
}
