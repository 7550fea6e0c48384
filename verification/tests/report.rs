use serde_json::Value;
use vyges_remap::report::{
    cec_json, emit, fail, failure_json, is_rejected, remap_event, result_json, summary, Cec, Remap,
    Severity,
};
use vyges_remap::stats::{Change, Stats};

fn stats(gates: f64, area: f64, mo: f64) -> Stats {
    Stats { gates: Value::from(gates), area: Value::from(area), mo: Value::from(mo) }
}

fn change(before: f64, after: f64) -> Change {
    Change {
        difference: Value::from(after - before),
        percent: Value::from((after - before) / before * 100.0),
    }
}

fn remap(cec: Cec) -> Remap {
    Remap {
        top: "design".to_string(),
        aig: "d.aig".to_string(),
        genlib: "t.genlib".to_string(),
        out: "o.v".to_string(),
        base: stats(200.0, 0.0, 0.0),
        mo: stats(150.0, 1.5, 12.0),
        cells: change(200.0, 150.0),
        area: change(0.0, 1.5),
        cec,
    }
}

#[test]
fn a_check_is_reported() {
    assert_eq!(
        cec_json(&Cec::Skipped).to_string(),
        r#"{"checked":false,"reason":"skipped (--no-cec)"}"#
    );
    assert_eq!(cec_json(&Cec::Checked(true)).to_string(), r#"{"checked":true,"equivalent":true}"#);
    assert_eq!(
        cec_json(&Cec::Checked(false)).to_string(),
        r#"{"checked":true,"equivalent":false}"#
    );
    assert_eq!(
        cec_json(&Cec::Unknown("no abc".to_string())).to_string(),
        r#"{"checked":false,"reason":"no abc"}"#
    );
}

#[test]
fn only_a_failed_check_rejects() {
    assert!(is_rejected(&Cec::Checked(false)));
    assert!(!is_rejected(&Cec::Checked(true)));
    assert!(!is_rejected(&Cec::Skipped));
    assert!(!is_rejected(&Cec::Unknown("no abc".to_string())));
}

#[test]
fn the_envelope_is_complete() {
    assert_eq!(
        result_json(remap(Cec::Checked(true))).to_string(),
        [
            r#"{"after":{"cell_area":1.5,"cell_count":150.0,"multioutput_gates":12.0},"#,
            r#""aig":"d.aig","#,
            r#""before":{"cell_area":0.0,"cell_count":200.0,"multioutput_gates":0.0},"#,
            r#""cec":{"checked":true,"equivalent":true},"#,
            r#""delta":{"cell_area":{"abs":1.5,"after":1.5,"before":0.0,"pct":null},"#,
            r#""cell_count":{"abs":-50.0,"after":150.0,"before":200.0,"pct":-25.0}},"#,
            r#""genlib":"t.genlib","multioutput_cells":12.0,"out_netlist":"o.v","#,
            r#""schema":"vyges-remap/1.0","status":"ok","top":"design"}"#,
        ]
        .concat()
    );
}

#[test]
fn a_failed_check_makes_an_error() {
    assert_eq!(result_json(remap(Cec::Checked(false)))["status"], "error");
    assert_eq!(result_json(remap(Cec::Checked(true)))["status"], "ok");
    assert_eq!(result_json(remap(Cec::Skipped))["status"], "ok");
    assert_eq!(result_json(remap(Cec::Unknown("?".to_string())))["status"], "ok");
}

#[test]
fn a_failure_is_told_in_words() {
    let o = fail(false, "design", "no luck");
    assert_eq!(o.stdout, "");
    assert_eq!(o.stderr, "vyges-remap: no luck\n");
    assert_eq!(o.code, 1);
}

#[test]
fn a_failure_is_told_in_json() {
    let o = fail(true, "design", "no \"luck\"");
    assert_eq!(
        o.stdout,
        "{\n  \"error\": \"no \\\"luck\\\"\",\n  \"schema\": \"vyges-remap/1.0\",\n  \
         \"status\": \"error\",\n  \"top\": \"design\"\n}\n"
    );
    assert_eq!(o.stderr, "");
    assert_eq!(o.code, 1);
    assert_eq!(failure_json("design", "x")["error"], "x");
}

#[test]
fn the_summary_shows_the_report() {
    let r = result_json(remap(Cec::Checked(true)));
    assert_eq!(
        summary(&r),
        "[remap] design   12.0 multi-output cells\n  cells: 200.0 -> 150.0  (-25.00%)\n  \
         area:  0.0 -> 1.5  (-)\n  netlist: o.v\n  cec: equivalent\n"
    );
    assert_eq!(emit(false, &r), summary(&r));
    assert_eq!(emit(true, &r), format!("{r:#}\n"));
}

#[test]
fn the_summary_shows_a_rejection() {
    let r = result_json(remap(Cec::Checked(false)));
    assert!(summary(&r).ends_with("  cec: NOT EQUIVALENT — remap rejected\n"));
}

#[test]
fn the_summary_is_silent_on_a_check_that_was_not_made() {
    assert!(summary(&result_json(remap(Cec::Skipped))).ends_with("  netlist: o.v\n"));
    let unknown = result_json(remap(Cec::Unknown("no abc".to_string())));
    assert!(summary(&unknown).ends_with("  netlist: o.v\n"));
}

#[test]
fn the_summary_of_an_empty_report() {
    assert_eq!(
        summary(&Value::Null),
        "[remap] ?   null multi-output cells\n  cells: null -> null  (-)\n  \
         area:  null -> null  (-)\n  netlist: -\n"
    );
}

#[test]
fn the_event_carries_the_headline() {
    let e = remap_event(&result_json(remap(Cec::Skipped)));
    assert_eq!(e.source, "vyges-remap");
    assert!(matches!(e.severity, Severity::Info));
    assert_eq!(
        e.message,
        "remap complete on design: cells 200 -> 150 (-25.00%), area 0 -> 1.5 (n/a), \
         12 multi-output cell(s)"
    );
    assert_eq!(e.code, "REMAP-DONE");
    assert_eq!(e.objects, vec!["netlist:o.v"]);
}

#[test]
fn the_event_of_an_empty_report() {
    let e = remap_event(&Value::Null);
    assert_eq!(
        e.message,
        "remap complete on ?: cells 0 -> 0 (n/a), area 0 -> 0 (n/a), 0 multi-output cell(s)"
    );
    assert_eq!(e.objects, vec!["netlist:-"]);
}

#[test]
fn a_gain_has_a_plus_sign() {
    let mut m = remap(Cec::Skipped);
    m.cells = change(200.0, 201.0);
    assert!(summary(&result_json(m)).contains("(+0.50%)"));
}
