//! What a re-mapping reports: the result envelope, the summary for people,
//! the completion event, and failures.

use serde_json::Value;
use vstd::prelude::*;

use crate::json;
use crate::json::Json;
use crate::stats;
use crate::stats::{Change, ChangeView, Stats, StatsView};

verus! {

/// The schema that every JSON report names.
pub const SCHEMA: &'static str = "vyges-remap/1.0";

/// What is printed on either stream, and the exit code.
pub struct Output {
    pub stdout: String,
    pub stderr: String,
    pub code: i32,
}

/// What an [`Output`] says.
pub struct OutputView {
    pub stdout: Seq<char>,
    pub stderr: Seq<char>,
    pub code: int,
}

impl View for Output {
    type V = OutputView;

    open spec fn view(&self) -> OutputView {
        OutputView { stdout: self.stdout@, stderr: self.stderr@, code: self.code as int }
    }
}

/// What was found of the equivalence of the re-mapped netlist and its input.
pub enum Cec {
    /// No check was asked for.
    Skipped,
    /// The check ran, with this verdict.
    Checked(bool),
    /// The check could not be made or did not decide; the text says why.
    Unknown(String),
}

/// What a [`Cec`] says.
pub enum CecView {
    Skipped,
    Checked(bool),
    Unknown(Seq<char>),
}

impl View for Cec {
    type V = CecView;

    open spec fn view(&self) -> CecView {
        match *self {
            Cec::Skipped => CecView::Skipped,
            Cec::Checked(equivalent) => CecView::Checked(equivalent),
            Cec::Unknown(why) => CecView::Unknown(why@),
        }
    }
}

/// An equivalence check, as reported.
pub open spec fn cec_tree(cec: CecView) -> Json {
    match cec {
        CecView::Skipped => Json::Object(
            map![
                "checked"@ => Json::Bool(false),
                "reason"@ => Json::Text("skipped (--no-cec)"@),
            ],
        ),
        CecView::Checked(equivalent) => Json::Object(
            map!["checked"@ => Json::Bool(true), "equivalent"@ => Json::Bool(equivalent)],
        ),
        CecView::Unknown(why) => Json::Object(
            map!["checked"@ => Json::Bool(false), "reason"@ => Json::Text(why)],
        ),
    }
}

/// An equivalence check, as reported.
pub fn cec_json(cec: &Cec) -> (r: Value)
    ensures
        json::tree(r) == cec_tree(cec@),
{
    let mut r: Value = json::null();
    match cec {
        Cec::Skipped => {
            json::put(&mut r, "checked", json::boolean(false));
            json::put(&mut r, "reason", json::text("skipped (--no-cec)"));
        },
        Cec::Checked(equivalent) => {
            json::put(&mut r, "checked", json::boolean(true));
            json::put(&mut r, "equivalent", json::boolean(*equivalent));
        },
        Cec::Unknown(why) => {
            json::put(&mut r, "checked", json::boolean(false));
            json::put(&mut r, "reason", json::text(why.as_str()));
        },
    }
    r
}

/// The re-mapped netlist was found not to be equivalent to its input.
pub open spec fn rejected(cec: CecView) -> bool {
    cec == CecView::Checked(false)
}

/// Whether the re-mapped netlist was found not to be equivalent to its input.
pub fn is_rejected(cec: &Cec) -> (r: bool)
    ensures
        r == rejected(cec@),
{
    match cec {
        Cec::Checked(equivalent) => !*equivalent,
        _ => false,
    }
}

/// Everything that a finished re-mapping reports.
pub struct Remap {
    pub top: String,
    pub aig: String,
    pub genlib: String,
    pub out: String,
    pub base: Stats,
    pub mo: Stats,
    pub cells: Change,
    pub area: Change,
    pub cec: Cec,
}

/// What a [`Remap`] says.
#[verifier::ext_equal]
pub struct RemapView {
    pub top: Seq<char>,
    pub aig: Seq<char>,
    pub genlib: Seq<char>,
    pub out: Seq<char>,
    pub base: StatsView,
    pub mo: StatsView,
    pub cells: ChangeView,
    pub area: ChangeView,
    pub cec: CecView,
}

impl View for Remap {
    type V = RemapView;

    open spec fn view(&self) -> RemapView {
        RemapView {
            top: self.top@,
            aig: self.aig@,
            genlib: self.genlib@,
            out: self.out@,
            base: self.base@,
            mo: self.mo@,
            cells: self.cells@,
            area: self.area@,
            cec: self.cec@,
        }
    }
}

/// The changes in both counts, as reported.
pub open spec fn changes_tree(m: RemapView) -> Json {
    Json::Object(
        map![
            "cell_count"@ => stats::delta_tree(m.base.gates, m.mo.gates, m.cells),
            "cell_area"@ => stats::delta_tree(m.base.area, m.mo.area, m.area),
        ],
    )
}

/// The result envelope. A netlist that is not equivalent makes it an error.
pub open spec fn result_tree(m: RemapView) -> Json {
    Json::Object(
        map![
            "schema"@ => Json::Text(SCHEMA@),
            "status"@ => Json::Text(
                if rejected(m.cec) {
                    "error"@
                } else {
                    "ok"@
                },
            ),
            "top"@ => Json::Text(m.top),
            "aig"@ => Json::Text(m.aig),
            "genlib"@ => Json::Text(m.genlib),
            "out_netlist"@ => Json::Text(m.out),
            "before"@ => stats::stat_tree(m.base),
            "after"@ => stats::stat_tree(m.mo),
            "delta"@ => changes_tree(m),
            "multioutput_cells"@ => m.mo.mo,
            "cec"@ => cec_tree(m.cec),
        ],
    )
}

/// The result envelope of a finished re-mapping.
pub fn result_json(m: Remap) -> (r: Value)
    ensures
        json::tree(r) == result_tree(m@),
{
    let status: &str = if is_rejected(&m.cec) {
        "error"
    } else {
        "ok"
    };
    let mut changes: Value = json::null();
    json::put(
        &mut changes,
        "cell_count",
        stats::delta_json(&m.base.gates, &m.mo.gates, m.cells),
    );
    json::put(&mut changes, "cell_area", stats::delta_json(&m.base.area, &m.mo.area, m.area));
    let mut r: Value = json::null();
    json::put(&mut r, "schema", json::text(SCHEMA));
    json::put(&mut r, "status", json::text(status));
    json::put(&mut r, "top", json::text(m.top.as_str()));
    json::put(&mut r, "aig", json::text(m.aig.as_str()));
    json::put(&mut r, "genlib", json::text(m.genlib.as_str()));
    json::put(&mut r, "out_netlist", json::text(m.out.as_str()));
    json::put(&mut r, "before", stats::stat_json(&m.base));
    json::put(&mut r, "after", stats::stat_json(&m.mo));
    json::put(&mut r, "delta", changes);
    json::put(&mut r, "multioutput_cells", json::copy(&m.mo.mo));
    json::put(&mut r, "cec", cec_json(&m.cec));
    r
}

/// The envelope of a failure.
pub open spec fn failure_tree(top: Seq<char>, msg: Seq<char>) -> Json {
    Json::Object(
        map![
            "schema"@ => Json::Text(SCHEMA@),
            "status"@ => Json::Text("error"@),
            "top"@ => Json::Text(top),
            "error"@ => Json::Text(msg),
        ],
    )
}

/// How a failure is told: as JSON on standard output, or in words on the
/// error stream. The exit code is 1 either way.
pub open spec fn fail_spec(want_json: bool, top: Seq<char>, msg: Seq<char>) -> OutputView {
    if want_json {
        OutputView {
            stdout: json::pretty_text(failure_tree(top, msg)) + "\n"@,
            stderr: Seq::empty(),
            code: 1,
        }
    } else {
        OutputView {
            stdout: Seq::empty(),
            stderr: "vyges-remap: "@ + msg + "\n"@,
            code: 1,
        }
    }
}

/// The envelope of a failure.
pub fn failure_json(top: &str, msg: &str) -> (r: Value)
    ensures
        json::tree(r) == failure_tree(top@, msg@),
{
    let mut r: Value = json::null();
    json::put(&mut r, "schema", json::text(SCHEMA));
    json::put(&mut r, "status", json::text("error"));
    json::put(&mut r, "top", json::text(top));
    json::put(&mut r, "error", json::text(msg));
    r
}

/// Tells of a failure.
pub fn fail(want_json: bool, top: &str, msg: &str) -> (r: Output)
    ensures
        r@ == fail_spec(want_json, top@, msg@),
{
    if want_json {
        Output {
            stdout: json::to_pretty(&failure_json(top, msg)).concat("\n"),
            stderr: String::new(),
            code: 1,
        }
    } else {
        Output {
            stdout: String::new(),
            stderr: "vyges-remap: ".to_owned().concat(msg).concat("\n"),
            code: 1,
        }
    }
}

/// What a value holds that may be missing: null where it is.
pub open spec fn tree_in(v: Option<&Value>) -> Json {
    match v {
        Some(t) => json::tree(*t),
        None => Json::Null,
    }
}

fn at<'a>(v: Option<&'a Value>, key: &str) -> (r: Option<&'a Value>)
    ensures
        tree_in(r) == tree_in(v).at(key@),
{
    json::get(v?, key)
}

/// The string that a value holds, or `default`.
pub open spec fn text_or(t: Json, default: Seq<char>) -> Seq<char> {
    match t.text() {
        Some(s) => s,
        None => default,
    }
}

fn string_or(v: Option<&Value>, default: &str) -> (r: String)
    ensures
        r@ == text_or(tree_in(v), default@),
{
    match v {
        Some(t) => match json::as_text(t) {
            Some(s) => s.to_owned(),
            None => default.to_owned(),
        },
        None => default.to_owned(),
    }
}

/// A relative change in percent, or `default` where there is none.
pub open spec fn percent_or(t: Json, default: Seq<char>) -> Seq<char> {
    match t.double() {
        Some(bits) => json::signed_hundredths(bits) + "%"@,
        None => default,
    }
}

fn percent_string(v: Option<&Value>, default: &str) -> (r: String)
    ensures
        r@ == percent_or(tree_in(v), default@),
{
    match v {
        Some(t) => match json::as_signed_hundredths(t) {
            Some(s) => s.concat("%"),
            None => default.to_owned(),
        },
        None => default.to_owned(),
    }
}

/// A count in words: the number, or zero for a value that is none.
pub open spec fn count_text(t: Json) -> Seq<char> {
    match t.double() {
        Some(bits) => json::double_text(bits),
        None => "0"@,
    }
}

fn count_string(v: Option<&Value>) -> (r: String)
    ensures
        r@ == count_text(tree_in(v)),
{
    match v {
        Some(t) => match json::as_double_text(t) {
            Some(s) => s,
            None => "0".to_owned(),
        },
        None => "0".to_owned(),
    }
}

fn compact_string(v: Option<&Value>) -> (r: String)
    ensures
        r@ == json::compact_text(tree_in(v)),
{
    match v {
        Some(t) => json::to_compact(t),
        None => json::to_compact(&json::null()),
    }
}

/// One line of the summary on a count: before, after, and the change.
pub open spec fn summary_change(label: Seq<char>, change: Json) -> Seq<char> {
    label + json::compact_text(change.at("before"@)) + " -> "@ + json::compact_text(
        change.at("after"@),
    ) + "  ("@ + percent_or(change.at("pct"@), "-"@) + ")\n"@
}

fn summary_change_line(label: &str, change: Option<&Value>) -> (r: String)
    ensures
        r@ == summary_change(label@, tree_in(change)),
{
    label.to_owned().concat(compact_string(at(change, "before")).as_str()).concat(" -> ").concat(
        compact_string(at(change, "after")).as_str(),
    ).concat("  (").concat(percent_string(at(change, "pct"), "-").as_str()).concat(")\n")
}

/// The line of the summary on the equivalence check, where one was made.
pub open spec fn summary_cec(cec: Json) -> Seq<char> {
    if cec.at("checked"@) == Json::Bool(true) {
        if cec.at("equivalent"@) == Json::Bool(true) {
            "  cec: equivalent\n"@
        } else {
            "  cec: NOT EQUIVALENT — remap rejected\n"@
        }
    } else {
        Seq::empty()
    }
}

fn is_true(v: Option<&Value>) -> (r: bool)
    ensures
        r == (tree_in(v) == Json::Bool(true)),
{
    match v {
        Some(t) => match json::as_bool(t) {
            Some(b) => b,
            None => false,
        },
        None => false,
    }
}

fn summary_cec_line(cec: Option<&Value>) -> (r: String)
    ensures
        r@ == summary_cec(tree_in(cec)),
{
    if is_true(at(cec, "checked")) {
        if is_true(at(cec, "equivalent")) {
            "  cec: equivalent\n".to_owned()
        } else {
            "  cec: NOT EQUIVALENT — remap rejected\n".to_owned()
        }
    } else {
        String::new()
    }
}

/// The summary of a report, for people.
pub open spec fn summary_spec(r: Json) -> Seq<char> {
    "[remap] "@ + text_or(r.at("top"@), "?"@) + "   "@ + json::compact_text(
        r.at("multioutput_cells"@),
    ) + " multi-output cells\n"@ + summary_change(
        "  cells: "@,
        r.at("delta"@).at("cell_count"@),
    ) + summary_change("  area:  "@, r.at("delta"@).at("cell_area"@)) + "  netlist: "@ + text_or(
        r.at("out_netlist"@),
        "-"@,
    ) + "\n"@ + summary_cec(r.at("cec"@))
}

/// The summary of a report, for people.
pub fn summary(r: &Value) -> (s: String)
    ensures
        s@ == summary_spec(json::tree(*r)),
{
    let report: Option<&Value> = Some(r);
    let changes: Option<&Value> = at(report, "delta");
    "[remap] ".to_owned().concat(string_or(at(report, "top"), "?").as_str()).concat("   ").concat(
        compact_string(at(report, "multioutput_cells")).as_str(),
    ).concat(" multi-output cells\n").concat(
        summary_change_line("  cells: ", at(changes, "cell_count")).as_str(),
    ).concat(summary_change_line("  area:  ", at(changes, "cell_area")).as_str()).concat(
        "  netlist: ",
    ).concat(string_or(at(report, "out_netlist"), "-").as_str()).concat("\n").concat(
        summary_cec_line(at(report, "cec")).as_str(),
    )
}

/// What is printed of a report: the JSON itself, or the summary.
pub open spec fn emit_spec(want_json: bool, r: Json) -> Seq<char> {
    if want_json {
        json::pretty_text(r) + "\n"@
    } else {
        summary_spec(r)
    }
}

/// What is printed of a report.
pub fn emit(want_json: bool, r: &Value) -> (s: String)
    ensures
        s@ == emit_spec(want_json, json::tree(*r)),
{
    if want_json {
        json::to_pretty(r).concat("\n")
    } else {
        summary(r)
    }
}

/// How much an event matters.
pub enum Severity {
    Info,
}

/// A structured event about a re-mapping.
pub struct Event {
    pub source: String,
    pub severity: Severity,
    pub message: String,
    pub code: String,
    pub objects: Vec<String>,
}

/// What an [`Event`] says.
#[verifier::ext_equal]
pub struct EventView {
    pub source: Seq<char>,
    pub severity: Severity,
    pub message: Seq<char>,
    pub code: Seq<char>,
    pub objects: Seq<Seq<char>>,
}

impl View for Event {
    type V = EventView;

    open spec fn view(&self) -> EventView {
        EventView {
            source: self.source@,
            severity: self.severity,
            message: self.message@,
            code: self.code@,
            objects: crate::job::words(self.objects@),
        }
    }
}

/// One count in the headline of the completion event.
pub open spec fn headline_change(change: Json) -> Seq<char> {
    count_text(change.at("before"@)) + " -> "@ + count_text(change.at("after"@)) + " ("@
        + percent_or(change.at("pct"@), "n/a"@) + ")"@
}

fn headline_change_string(change: Option<&Value>) -> (r: String)
    ensures
        r@ == headline_change(tree_in(change)),
{
    count_string(at(change, "before")).concat(" -> ").concat(
        count_string(at(change, "after")).as_str(),
    ).concat(" (").concat(percent_string(at(change, "pct"), "n/a").as_str()).concat(")")
}

/// The completion event of a report: one event that carries the headline and
/// names the netlist.
pub open spec fn event_spec(r: Json) -> EventView {
    EventView {
        source: "vyges-remap"@,
        severity: Severity::Info,
        message: "remap complete on "@ + text_or(r.at("top"@), "?"@) + ": cells "@
            + headline_change(r.at("delta"@).at("cell_count"@)) + ", area "@ + headline_change(
            r.at("delta"@).at("cell_area"@),
        ) + ", "@ + count_text(r.at("multioutput_cells"@)) + " multi-output cell(s)"@,
        code: "REMAP-DONE"@,
        objects: seq!["netlist:"@ + text_or(r.at("out_netlist"@), "-"@)],
    }
}

/// The completion event of a report.
pub fn remap_event(r: &Value) -> (e: Event)
    ensures
        e@ == event_spec(json::tree(*r)),
{
    let report: Option<&Value> = Some(r);
    let changes: Option<&Value> = at(report, "delta");
    let message: String = "remap complete on ".to_owned().concat(
        string_or(at(report, "top"), "?").as_str(),
    ).concat(": cells ").concat(
        headline_change_string(at(changes, "cell_count")).as_str(),
    ).concat(", area ").concat(headline_change_string(at(changes, "cell_area")).as_str()).concat(
        ", ",
    ).concat(count_string(at(report, "multioutput_cells")).as_str()).concat(
        " multi-output cell(s)",
    );
    let netlist: String = "netlist:".to_owned().concat(
        string_or(at(report, "out_netlist"), "-").as_str(),
    );
    Event {
        source: "vyges-remap".to_owned(),
        severity: Severity::Info,
        message,
        code: "REMAP-DONE".to_owned(),
        objects: vec![netlist],
    }
}

}
