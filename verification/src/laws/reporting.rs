//! Laws of the reports: the envelopes, the summary, and the completion event.

use vstd::prelude::*;

use crate::json;
use crate::json::{Json, Num};
use crate::report;
use crate::report::{CecView, RemapView, Severity};
use crate::stats;
use crate::stats::{ChangeView, StatsView};

verus! {

/// A member of an object is found by its name. What is no object has no
/// members, and a member that is not there counts as null. A double is found
/// by its bit pattern, another number by the double that stands for it, and a
/// string by its characters; no other value is a number or a string.
pub proof fn law_values_are_found(
    fields: Map<Seq<char>, Json>,
    key: Seq<char>,
    v: Json,
    bits: u64,
    s: Seq<char>,
)
    ensures
        fields.contains_key(key) ==> Json::Object(fields).at(key) == fields[key],
        fields.contains_key(key) ==> Json::Object(fields).member(key) == Some(fields[key]),
        !fields.contains_key(key) ==> Json::Object(fields).at(key) is Null,
        !fields.contains_key(key) ==> Json::Object(fields).member(key) is None,
        !(v is Object) ==> v.at(key) is Null && v.member(key) is None,
        Json::Object(fields).fields() == fields,
        !(v is Object) ==> v.fields() == Map::<Seq<char>, Json>::empty(),
        Json::Number(Num::Float(bits)).double() == Some(bits),
        Json::from_bits(bits).double() == Some(bits),
        Json::from_bits(bits) == Json::Number(Num::Float(bits)),
        v is Number && !(v->Number_0 is Float) ==> v.double() == Some(
            json::num_double(v->Number_0),
        ),
        !(v is Number) ==> v.double() is None,
        Json::Text(s).text() == Some(s),
        !(v is Text) ==> v.text() is None,
{
}

/// A double is a zero just when nothing but its sign is set, and finite just
/// when not all bits of its exponent are.
pub proof fn law_doubles_are_read_by_their_bits(bits: u64)
    ensures
        stats::is_zero(bits) <==> bits % 0x8000_0000_0000_0000 == 0,
        json::is_finite(bits) <==> bits & 0x7ff0_0000_0000_0000 != 0x7ff0_0000_0000_0000,
{
    assert((bits / 0x10_0000_0000_0000) % 0x800 != 0x7ff <==> bits & 0x7ff0_0000_0000_0000
        != 0x7ff0_0000_0000_0000) by (bit_vector);
}

/// A value is a number that is zero, of either sign.
pub open spec fn is_nought(v: Json) -> bool {
    v.double() is Some && v.double()->0 % 0x8000_0000_0000_0000 == 0
}

/// A value is an object with just the given members.
pub open spec fn has_just(v: Json, keys: Set<Seq<char>>) -> bool {
    v is Object && v->Object_0.dom() == keys
}

/// A value gives the counts of one pass, and nothing else.
pub open spec fn gives_counts(v: Json, counts: StatsView) -> bool {
    &&& has_just(v, set!["cell_count"@, "cell_area"@, "multioutput_gates"@])
    &&& v.at("cell_count"@) == counts.gates
    &&& v.at("cell_area"@) == counts.area
    &&& v.at("multioutput_gates"@) == counts.mo
}

/// A value gives a count before and after with its change, and nothing else.
/// There is no relative change from zero.
pub open spec fn gives_change(v: Json, before: Json, after: Json, change: ChangeView) -> bool {
    &&& has_just(v, set!["before"@, "after"@, "abs"@, "pct"@])
    &&& v.at("before"@) == before
    &&& v.at("after"@) == after
    &&& v.at("abs"@) == change.difference
    &&& is_nought(before) ==> v.at("pct"@) is Null
    &&& !is_nought(before) ==> v.at("pct"@) == change.percent
}

/// What is reported of one pass are its counts.
pub proof fn law_a_pass_is_reported(counts: StatsView)
    ensures
        gives_counts(stats::stat_tree(counts), counts),
{
    reveal_strlit("cell_count");
    reveal_strlit("cell_area");
    reveal_strlit("multioutput_gates");
    assert("cell_count"@.len() == 10 && "cell_area"@.len() == 9 && "multioutput_gates"@.len() == 17);
    assert(stats::stat_tree(counts)->Object_0.dom() == set![
        "cell_count"@,
        "cell_area"@,
        "multioutput_gates"@,
    ]);
}

/// What is reported of a count before and after are both and the change, with
/// no relative change just where the count before is zero.
pub proof fn law_a_change_is_reported(before: Json, after: Json, change: ChangeView)
    ensures
        gives_change(stats::delta_tree(before, after, change), before, after, change),
        stats::has_pct(before) <==> !is_nought(before),
{
    reveal_strlit("before");
    reveal_strlit("after");
    reveal_strlit("abs");
    reveal_strlit("pct");
    assert("before"@.len() == 6 && "after"@.len() == 5 && "abs"@.len() == 3);
    assert("pct"@.len() == 3);
    assert("abs"@[0] == 'a' && "pct"@[0] == 'p');
    assert(stats::delta_tree(before, after, change)->Object_0.dom() == set![
        "before"@,
        "after"@,
        "abs"@,
        "pct"@,
    ]);
    if before.double() is Some {
        law_doubles_are_read_by_their_bits(before.double()->0);
    }
}

/// A check is reported as made just when it gave a verdict, which is then
/// given; otherwise the reason is.
pub proof fn law_a_check_is_reported(cec: CecView)
    ensures
        cec is Checked ==> {
            &&& has_just(report::cec_tree(cec), set!["checked"@, "equivalent"@])
            &&& report::cec_tree(cec).at("checked"@) == Json::Bool(true)
            &&& report::cec_tree(cec).at("equivalent"@) == Json::Bool(cec->Checked_0)
        },
        !(cec is Checked) ==> {
            &&& has_just(report::cec_tree(cec), set!["checked"@, "reason"@])
            &&& report::cec_tree(cec).at("checked"@) == Json::Bool(false)
        },
        cec is Unknown ==> report::cec_tree(cec).at("reason"@) == Json::Text(cec->Unknown_0),
        cec is Skipped ==> report::cec_tree(cec).at("reason"@) == Json::Text(
            "skipped (--no-cec)"@,
        ),
        report::rejected(cec) <==> cec is Checked && !cec->Checked_0,
{
    reveal_strlit("checked");
    reveal_strlit("equivalent");
    reveal_strlit("reason");
    assert("checked"@.len() == 7 && "equivalent"@.len() == 10 && "reason"@.len() == 6);
    assert(cec is Checked ==> report::cec_tree(cec)->Object_0.dom() == set![
        "checked"@,
        "equivalent"@,
    ]);
    assert(!(cec is Checked) ==> report::cec_tree(cec)->Object_0.dom() == set![
        "checked"@,
        "reason"@,
    ]);
}

/// The members of a result envelope.
pub open spec fn envelope_members() -> Set<Seq<char>> {
    set![
        "schema"@,
        "status"@,
        "top"@,
        "aig"@,
        "genlib"@,
        "out_netlist"@,
        "before"@,
        "after"@,
        "delta"@,
        "multioutput_cells"@,
        "cec"@,
    ]
}

proof fn lemma_envelope_names()
    ensures
        "schema"@.len() == 6 && "status"@.len() == 6 && "top"@.len() == 3,
        "aig"@.len() == 3 && "genlib"@.len() == 6 && "out_netlist"@.len() == 11,
        "before"@.len() == 6 && "after"@.len() == 5 && "delta"@.len() == 5,
        "multioutput_cells"@.len() == 17 && "cec"@.len() == 3 && "error"@.len() == 5,
        "schema"@[0] == 's' && "status"@[0] == 's' && "genlib"@[0] == 'g' && "before"@[0] == 'b',
        "schema"@[1] == 'c' && "status"@[1] == 't',
        "top"@[0] == 't' && "aig"@[0] == 'a' && "cec"@[0] == 'c',
        "after"@[0] == 'a' && "delta"@[0] == 'd' && "error"@[0] == 'e',
        "cell_count"@.len() == 10 && "cell_area"@.len() == 9,
{
    reveal_strlit("schema");
    reveal_strlit("status");
    reveal_strlit("top");
    reveal_strlit("aig");
    reveal_strlit("genlib");
    reveal_strlit("out_netlist");
    reveal_strlit("before");
    reveal_strlit("after");
    reveal_strlit("delta");
    reveal_strlit("multioutput_cells");
    reveal_strlit("cec");
    reveal_strlit("error");
    reveal_strlit("cell_count");
    reveal_strlit("cell_area");
}

/// The result envelope of any finished re-mapping, whatever its check found,
/// gives the module, the netlist and the library that were mapped, the netlist
/// that was written, the counts of the baseline as those before and of the
/// multi-output pass as those after, their changes, and the check. The counts
/// before and after are also those of the changes.
pub proof fn law_an_envelope_gives_everything(m: RemapView)
    ensures
        ({
            let t = report::result_tree(m);
            &&& has_just(t, envelope_members())
            &&& t.at("schema"@) == Json::Text("vyges-remap/1.0"@)
            &&& t.at("status"@) == Json::Text(
                if m.cec is Checked && !m.cec->Checked_0 {
                    "error"@
                } else {
                    "ok"@
                },
            )
            &&& t.at("top"@) == Json::Text(m.top)
            &&& t.at("aig"@) == Json::Text(m.aig)
            &&& t.at("genlib"@) == Json::Text(m.genlib)
            &&& t.at("out_netlist"@) == Json::Text(m.out)
            &&& gives_counts(t.at("before"@), m.base)
            &&& gives_counts(t.at("after"@), m.mo)
            &&& has_just(t.at("delta"@), set!["cell_count"@, "cell_area"@])
            &&& gives_change(t.at("delta"@).at("cell_count"@), m.base.gates, m.mo.gates, m.cells)
            &&& gives_change(t.at("delta"@).at("cell_area"@), m.base.area, m.mo.area, m.area)
            &&& t.at("multioutput_cells"@) == m.mo.mo
            &&& t.at("cec"@) == report::cec_tree(m.cec)
            &&& t.at("before"@).at("cell_count"@) == t.at("delta"@).at("cell_count"@).at("before"@)
            &&& t.at("after"@).at("cell_count"@) == t.at("delta"@).at("cell_count"@).at("after"@)
            &&& t.at("before"@).at("cell_area"@) == t.at("delta"@).at("cell_area"@).at("before"@)
            &&& t.at("after"@).at("cell_area"@) == t.at("delta"@).at("cell_area"@).at("after"@)
            &&& t.at("after"@).at("multioutput_gates"@) == t.at("multioutput_cells"@)
        }),
{
    lemma_envelope_names();
    let t = report::result_tree(m);
    assert(t->Object_0.dom() == envelope_members());
    assert(report::changes_tree(m)->Object_0.dom() == set!["cell_count"@, "cell_area"@]);
    law_a_pass_is_reported(m.base);
    law_a_pass_is_reported(m.mo);
    law_a_change_is_reported(m.base.gates, m.mo.gates, m.cells);
    law_a_change_is_reported(m.base.area, m.mo.area, m.area);
    law_a_check_is_reported(m.cec);
}

/// Two envelopes are the same only where everything that they report is: no
/// part of a finished re-mapping is lost.
pub proof fn law_an_envelope_loses_nothing(m: RemapView, n: RemapView)
    requires
        report::result_tree(m) == report::result_tree(n),
    ensures
        m.top == n.top,
        m.aig == n.aig,
        m.genlib == n.genlib,
        m.out == n.out,
        m.base == n.base,
        m.mo == n.mo,
        m.cells.difference == n.cells.difference,
        m.area.difference == n.area.difference,
        !is_nought(m.base.gates) ==> m.cells == n.cells,
        !is_nought(m.base.area) ==> m.area == n.area,
        report::rejected(m.cec) == report::rejected(n.cec),
{
    law_an_envelope_gives_everything(m);
    law_an_envelope_gives_everything(n);
    reveal_strlit("error");
    reveal_strlit("ok");
    assert("error"@.len() == 5 && "ok"@.len() == 2);
    assert(Json::Text(m.top) == Json::Text(n.top));
    assert(Json::Text(m.aig) == Json::Text(n.aig));
    assert(Json::Text(m.genlib) == Json::Text(n.genlib));
    assert(Json::Text(m.out) == Json::Text(n.out));
}

/// A failure is told on one stream: as an envelope that names the schema, the
/// error status, the module and the reason where JSON is wanted, and with the
/// reason in words otherwise. The exit code is 1.
pub proof fn law_a_failure_is_told(want_json: bool, top: Seq<char>, msg: Seq<char>)
    ensures
        report::fail_spec(want_json, top, msg).code == 1,
        want_json ==> {
            let t = report::failure_tree(top, msg);
            &&& report::fail_spec(want_json, top, msg).stdout == json::pretty_text(t) + seq!['\n']
            &&& report::fail_spec(want_json, top, msg).stderr.len() == 0
            &&& has_just(t, set!["schema"@, "status"@, "top"@, "error"@])
            &&& t.at("schema"@) == Json::Text("vyges-remap/1.0"@)
            &&& t.at("status"@) == Json::Text("error"@)
            &&& t.at("top"@) == Json::Text(top)
            &&& t.at("error"@) == Json::Text(msg)
        },
        !want_json ==> {
            &&& report::fail_spec(want_json, top, msg).stderr == "vyges-remap: "@ + msg + seq!['\n']
            &&& report::fail_spec(want_json, top, msg).stdout.len() == 0
        },
{
    lemma_envelope_names();
    reveal_strlit("\n");
    assert("\n"@ == seq!['\n']);
    assert(report::failure_tree(top, msg)->Object_0.dom() == set![
        "schema"@,
        "status"@,
        "top"@,
        "error"@,
    ]);
}

/// A string, or something else in its place.
pub open spec fn in_words(v: Json, otherwise: Seq<char>) -> Seq<char> {
    if v is Text {
        v->Text_0
    } else {
        otherwise
    }
}

/// A number as a percentage, or something else in its place.
pub open spec fn in_percent(v: Json, otherwise: Seq<char>) -> Seq<char> {
    if v is Number {
        json::signed_hundredths(v.double()->0) + seq!['%']
    } else {
        otherwise
    }
}

/// A number in figures, and a zero in place of what is none.
pub open spec fn in_figures(v: Json) -> Seq<char> {
    if v is Number {
        json::double_text(v.double()->0)
    } else {
        seq!['0']
    }
}

/// The line on a count in the summary of a report.
pub open spec fn count_line(label: Seq<char>, change: Json) -> Seq<char> {
    label + json::compact_text(change.at("before"@)) + " -> "@ + json::compact_text(
        change.at("after"@),
    ) + "  ("@ + in_percent(change.at("pct"@), seq!['-']) + ")\n"@
}

/// The line on the check in the summary of a report: there is one just when a
/// check was made.
pub open spec fn check_line(cec: Json) -> Seq<char> {
    if cec.at("checked"@) == Json::Bool(true) {
        if cec.at("equivalent"@) == Json::Bool(true) {
            "  cec: equivalent\n"@
        } else {
            "  cec: NOT EQUIVALENT — remap rejected\n"@
        }
    } else {
        Seq::empty()
    }
}

proof fn lemma_small_words()
    ensures
        "%"@ == seq!['%'],
        "-"@ == seq!['-'],
        "?"@ == seq!['?'],
        "0"@ == seq!['0'],
        "\n"@ == seq!['\n'],
{
    reveal_strlit("%");
    reveal_strlit("-");
    reveal_strlit("?");
    reveal_strlit("0");
    reveal_strlit("\n");
}

/// The summary of any report shows its module, its multi-output cells, both
/// changes, its netlist and its check, each from the member of that name. The
/// envelope is printed in its place where JSON is wanted.
pub proof fn law_any_summary_shows_its_report(r: Json)
    ensures
        report::summary_spec(r) == "[remap] "@ + in_words(r.at("top"@), seq!['?']) + "   "@
            + json::compact_text(r.at("multioutput_cells"@)) + " multi-output cells\n"@
            + count_line("  cells: "@, r.at("delta"@).at("cell_count"@)) + count_line(
            "  area:  "@,
            r.at("delta"@).at("cell_area"@),
        ) + "  netlist: "@ + in_words(r.at("out_netlist"@), seq!['-']) + seq!['\n'] + check_line(
            r.at("cec"@),
        ),
        report::emit_spec(false, r) == report::summary_spec(r),
        report::emit_spec(true, r) == json::pretty_text(r) + seq!['\n'],
{
    lemma_small_words();
    let cells = r.at("delta"@).at("cell_count"@);
    let area = r.at("delta"@).at("cell_area"@);
    assert(report::summary_change("  cells: "@, cells) == count_line("  cells: "@, cells));
    assert(report::summary_change("  area:  "@, area) == count_line("  area:  "@, area));
    assert(report::summary_cec(r.at("cec"@)) == check_line(r.at("cec"@)));
    assert(report::text_or(r.at("top"@), "?"@) == in_words(r.at("top"@), seq!['?']));
    assert(report::text_or(r.at("out_netlist"@), "-"@) == in_words(
        r.at("out_netlist"@),
        seq!['-'],
    ));
}

/// A change in the headline of an event.
pub open spec fn headline(change: Json) -> Seq<char> {
    in_figures(change.at("before"@)) + " -> "@ + in_figures(change.at("after"@)) + " ("@
        + in_percent(change.at("pct"@), "n/a"@) + ")"@
}

/// The event of any report carries its headline, from the members of these
/// names, and names its netlist as the one object.
pub proof fn law_any_event_carries_its_headline(r: Json)
    ensures
        report::event_spec(r).source == "vyges-remap"@,
        report::event_spec(r).severity == Severity::Info,
        report::event_spec(r).code == "REMAP-DONE"@,
        report::event_spec(r).message == "remap complete on "@ + in_words(r.at("top"@), seq!['?'])
            + ": cells "@ + headline(r.at("delta"@).at("cell_count"@)) + ", area "@ + headline(
            r.at("delta"@).at("cell_area"@),
        ) + ", "@ + in_figures(r.at("multioutput_cells"@)) + " multi-output cell(s)"@,
        report::event_spec(r).objects == seq![
            "netlist:"@ + in_words(r.at("out_netlist"@), seq!['-']),
        ],
{
    lemma_small_words();
    let cells = r.at("delta"@).at("cell_count"@);
    let area = r.at("delta"@).at("cell_area"@);
    assert(report::headline_change(cells) == headline(cells));
    assert(report::headline_change(area) == headline(area));
    assert(report::count_text(r.at("multioutput_cells"@)) == in_figures(
        r.at("multioutput_cells"@),
    ));
    assert(report::text_or(r.at("top"@), "?"@) == in_words(r.at("top"@), seq!['?']));
    assert(report::text_or(r.at("out_netlist"@), "-"@) == in_words(
        r.at("out_netlist"@),
        seq!['-'],
    ));
}

}
