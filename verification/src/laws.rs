//! What holds of the engine as a whole.

pub mod course;
pub mod holding;
pub mod reading;
pub mod reporting;
pub mod tooling;

use vstd::prelude::*;

use crate::contract;
use crate::job;
use crate::job::{CellLibraryView, JobView, NetlistView};
use crate::json;
use crate::json::Json;
use crate::report;
use crate::report::{CecView, RemapView};
use crate::session;
use crate::session::{
    ActionView, CountsView, FinishView, ReplyView, SessionView, SettingView, StageView, WorkView,
};
use crate::stats;
use crate::stats::{ChangeView, StatsView};
use crate::text;
use crate::tools;

verus! {

/// Where a session stands after some replies, and what it asks for there.
pub open spec fn reached(s: SettingView, replies: Seq<ReplyView>) -> (SessionView, ActionView)
    decreases replies.len(),
{
    if replies.len() == 0 {
        s.begin()
    } else {
        reached(s, replies.drop_last()).0.next(replies.last())
    }
}

/// Each reply is one to the action that the session asked for before it.
pub open spec fn conversation(s: SettingView, replies: Seq<ReplyView>) -> bool
    decreases replies.len(),
{
    replies.len() == 0 || {
        &&& conversation(s, replies.drop_last())
        &&& reached(s, replies.drop_last()).0.expects(replies.last())
    }
}

/// Everything that a session has asked for, in order.
pub open spec fn actions(s: SettingView, replies: Seq<ReplyView>) -> Seq<ActionView>
    decreases replies.len(),
{
    if replies.len() == 0 {
        seq![s.begin().1]
    } else {
        actions(s, replies.drop_last()).push(reached(s, replies).1)
    }
}

/// How many replies a session can still take at most.
pub open spec fn rank(stage: StageView) -> nat {
    match stage {
        StageView::Extract => 8,
        StageView::Convert { .. } => 7,
        StageView::BaseRun { .. } => 6,
        StageView::BaseStats { .. } => 5,
        StageView::MoRun { .. } => 4,
        StageView::MoStats { .. } => 3,
        StageView::Check { .. } => 2,
        StageView::Compare { .. } => 1,
        StageView::Done => 0,
    }
}

/// Every session ends: each reply brings it nearer to its end, which it
/// reaches after eight replies at the latest. It is at its end just when it
/// says how it ends.
pub proof fn law_session_ends(s: SettingView, replies: Seq<ReplyView>)
    requires
        conversation(s, replies),
    ensures
        replies.len() + rank(reached(s, replies).0.stage) <= 8,
        reached(s, replies).0.stage is Done <==> reached(s, replies).1 is Finish,
    decreases replies.len(),
{
    if replies.len() > 0 {
        law_session_ends(s, replies.drop_last());
    }
}

/// The netlist that a session maps.
pub open spec fn netlist_path(s: SettingView) -> Seq<char> {
    match s.job.netlist {
        Some(NetlistView::Aig(aig)) => aig,
        _ => s.work.design_aig,
    }
}

/// The library that a session maps to.
pub open spec fn library_path(s: SettingView) -> Seq<char> {
    match s.job.library {
        Some(CellLibraryView::Genlib(genlib)) => genlib,
        _ => s.work.tech_genlib,
    }
}

/// The extraction of the netlist, where one is needed.
pub open spec fn extraction(s: SettingView) -> Seq<ActionView> {
    match s.job.netlist {
        Some(NetlistView::Verilog(verilog)) => seq![s.extract_action(verilog)],
        _ => Seq::empty(),
    }
}

/// The conversion of the library, where one is needed.
pub open spec fn conversion(s: SettingView) -> Seq<ActionView> {
    match s.job.library {
        Some(CellLibraryView::Liberty(liberty)) => seq![s.convert_action(liberty)],
        _ => Seq::empty(),
    }
}

/// The check of the re-mapped netlist, where it is asked for.
pub open spec fn checking(s: SettingView) -> Seq<ActionView> {
    if s.job.check {
        seq![s.check_action(netlist_path(s), library_path(s))]
    } else {
        Seq::empty()
    }
}

/// Both passes of the mapper, on the same netlist and library: the baseline,
/// its counts, the multi-output pass, its counts.
pub open spec fn passes(s: SettingView) -> Seq<ActionView> {
    seq![
        s.base_action(netlist_path(s), library_path(s)),
        ActionView::Read(s.work.base_json),
        s.mo_action(netlist_path(s), library_path(s)),
        ActionView::Read(s.work.mo_json),
    ]
}

/// The comparison of the counts that a report gives.
pub open spec fn comparison(m: RemapView) -> ActionView {
    ActionView::Compare {
        cells: CountsView { before: m.base.gates, after: m.mo.gates },
        area: CountsView { before: m.base.area, after: m.mo.area },
    }
}

/// What has been asked for when the session waits in `stage`.
spec fn asked(s: SettingView, stage: StageView) -> Seq<ActionView> {
    let lead = extraction(s) + conversion(s);
    match stage {
        StageView::Extract => extraction(s),
        StageView::Convert { .. } => lead,
        StageView::BaseRun { .. } => lead + passes(s).take(1),
        StageView::BaseStats { .. } => lead + passes(s).take(2),
        StageView::MoRun { .. } => lead + passes(s).take(3),
        StageView::MoStats { .. } => lead + passes(s),
        StageView::Check { .. } => lead + passes(s) + checking(s),
        StageView::Compare { base, mo, .. } => (lead + passes(s) + checking(s)).push(
            ActionView::Compare {
                cells: CountsView { before: base.gates, after: mo.gates },
                area: CountsView { before: base.area, after: mo.area },
            },
        ),
        StageView::Done => Seq::empty(),
    }
}

/// What a session knows in `stage` is what its setting says.
spec fn settled(s: SettingView, stage: StageView) -> bool {
    let a = netlist_path(s);
    let g = library_path(s);
    let given = s.job.netlist is Some && s.job.library is Some;
    match stage {
        StageView::Extract => s.job.netlist is Some && s.job.netlist->0 is Verilog,
        StageView::Convert { aig } => {
            &&& given
            &&& s.job.library->0 is Liberty
            &&& aig == a
        },
        StageView::BaseRun { aig, genlib } => given && aig == a && genlib == g,
        StageView::BaseStats { aig, genlib } => given && aig == a && genlib == g,
        StageView::MoRun { aig, genlib, .. } => given && aig == a && genlib == g,
        StageView::MoStats { aig, genlib, .. } => given && aig == a && genlib == g,
        StageView::Check { aig, genlib, .. } => {
            &&& given
            &&& aig == a
            &&& genlib == g
            &&& s.job.check
        },
        StageView::Compare { aig, genlib, cec, .. } => {
            &&& given
            &&& aig == a
            &&& genlib == g
            &&& cec is Skipped <==> !s.job.check
        },
        StageView::Done => true,
    }
}

proof fn lemma_settled(s: SettingView, replies: Seq<ReplyView>)
    requires
        conversation(s, replies),
    ensures
        reached(s, replies).0.setting == s,
        settled(s, reached(s, replies).0.stage),
    decreases replies.len(),
{
    if replies.len() > 0 {
        lemma_settled(s, replies.drop_last());
    }
}

/// What has been asked for grows with each pass as the stages go on.
proof fn lemma_asked_grows(s: SettingView)
    ensures
        ({
            let lead = extraction(s) + conversion(s);
            let p = passes(s);
            &&& lead + p.take(1) == lead.push(p[0])
            &&& lead + p.take(2) == (lead + p.take(1)).push(p[1])
            &&& lead + p.take(3) == (lead + p.take(2)).push(p[2])
            &&& lead + p == (lead + p.take(3)).push(p[3])
            &&& s.job.check ==> lead + p + checking(s) == (lead + p).push(checking(s)[0])
            &&& !s.job.check ==> lead + p + checking(s) == lead + p
            &&& s.job.library is Some && s.job.library->0 is Genlib ==> lead == extraction(s)
            &&& s.job.library is Some && s.job.library->0 is Liberty ==> lead
                == extraction(s).push(conversion(s)[0])
        }),
{
}

#[verifier::spinoff_prover]
proof fn lemma_asked(s: SettingView, replies: Seq<ReplyView>)
    requires
        conversation(s, replies),
    ensures
        reached(s, replies).0.setting == s,
        settled(s, reached(s, replies).0.stage),
        !(reached(s, replies).0.stage is Done) ==> actions(s, replies) == asked(
            s,
            reached(s, replies).0.stage,
        ),
    decreases replies.len(),
{
    lemma_settled(s, replies);
    lemma_asked_grows(s);
    if replies.len() > 0 {
        lemma_settled(s, replies.drop_last());
        lemma_asked(s, replies.drop_last());
    } else {
        assert(seq![s.begin().1] == Seq::<ActionView>::empty().push(s.begin().1));
        assert(s.job.netlist is Some && s.job.netlist->0 is Aig ==> extraction(s) == Seq::<
            ActionView,
        >::empty());
    }
}

/// How many replies come before those on the two passes.
pub open spec fn lead(s: SettingView) -> int {
    (extraction(s) + conversion(s)).len() as int
}

/// How many replies a session has heard when it waits in `stage`.
spec fn heard(s: SettingView, stage: StageView) -> int {
    match stage {
        StageView::Extract => 0,
        StageView::Convert { .. } => extraction(s).len() as int,
        StageView::BaseRun { .. } => lead(s),
        StageView::BaseStats { .. } => lead(s) + 1,
        StageView::MoRun { .. } => lead(s) + 2,
        StageView::MoStats { .. } => lead(s) + 3,
        StageView::Check { .. } => lead(s) + 4,
        StageView::Compare { .. } => lead(s) + 4 + checking(s).len(),
        StageView::Done => 0,
    }
}

/// The reply at `i` is on a sidecar with the given counts.
pub open spec fn counted(replies: Seq<ReplyView>, i: int, counts: StatsView) -> bool {
    &&& 0 <= i < replies.len()
    &&& replies[i] is Read
    &&& tools::emap_stats_spec(replies[i]->Read_0) == Ok::<StatsView, Seq<char>>(counts)
}

/// The reply at `i` is on a check with the given result.
pub open spec fn judged(replies: Seq<ReplyView>, i: int, cec: CecView) -> bool {
    &&& 0 <= i < replies.len()
    &&& replies[i] is Ran
    &&& cec == session::cec_found(tools::cec_spec(tools::decoded(replies[i]->Ran_0)))
}

#[verifier::spinoff_prover]
proof fn lemma_heard(s: SettingView, replies: Seq<ReplyView>)
    requires
        conversation(s, replies),
    ensures
        !(reached(s, replies).0.stage is Done) ==> replies.len() == heard(
            s,
            reached(s, replies).0.stage,
        ),
        match reached(s, replies).0.stage {
            StageView::MoRun { base, .. } => counted(replies, lead(s) + 1, base),
            StageView::MoStats { base, .. } => counted(replies, lead(s) + 1, base),
            StageView::Check { base, mo, .. } => {
                &&& counted(replies, lead(s) + 1, base)
                &&& counted(replies, lead(s) + 3, mo)
            },
            StageView::Compare { base, mo, cec, .. } => {
                &&& counted(replies, lead(s) + 1, base)
                &&& counted(replies, lead(s) + 3, mo)
                &&& s.job.check ==> judged(replies, lead(s) + 4, cec)
            },
            _ => true,
        },
    decreases replies.len(),
{
    lemma_settled(s, replies);
    if replies.len() > 0 {
        lemma_settled(s, replies.drop_last());
        lemma_heard(s, replies.drop_last());
    }
}

/// A session that reports has gone the whole way, in order and nothing twice:
/// extraction and conversion where they are needed, the baseline and then the
/// multi-output pass on the same netlist and library, the check where it is
/// asked for, the comparison, and the report. The report is on just that: its
/// counts are those of the two sidecars, its changes those of the comparison,
/// its verdict that of the check.
pub proof fn law_report_follows_both_passes(
    s: SettingView,
    replies: Seq<ReplyView>,
    f: FinishView,
) -> (m: RemapView)
    requires
        conversation(s, replies),
        reached(s, replies).1 == ActionView::Finish(f),
        f.event is Some,
    ensures
        f == s.finish(m),
        actions(s, replies) == extraction(s) + conversion(s) + passes(s) + checking(s) + seq![
            comparison(m),
            ActionView::Finish(f),
        ],
        m.top == s.job.top,
        m.out == s.job.out,
        m.aig == netlist_path(s),
        m.genlib == library_path(s),
        counted(replies, lead(s) + 1, m.base),
        counted(replies, lead(s) + 3, m.mo),
        s.job.check ==> judged(replies, lead(s) + 4, m.cec),
        !s.job.check ==> m.cec is Skipped,
        replies.last() == (ReplyView::Compared { cells: m.cells, area: m.area }),
{
    lemma_asked(s, replies);
    let before = replies.drop_last();
    assert(replies.len() > 0);
    lemma_asked(s, before);
    lemma_heard(s, before);
    match (reached(s, before).0.stage, replies.last()) {
        (
            StageView::Compare { aig, genlib, base, mo, cec },
            ReplyView::Compared { cells, area },
        ) => {
            let m = RemapView {
                top: s.job.top,
                aig,
                genlib,
                out: s.job.out,
                base,
                mo,
                cells,
                area,
                cec,
            };
            assert(actions(s, replies) == extraction(s) + conversion(s) + passes(s) + checking(s)
                + seq![comparison(m), ActionView::Finish(f)]);
            m
        },
        _ => {
            assert(false);
            arbitrary()
        },
    }
}

/// The two passes differ in nothing but the switch for multi-output cells,
/// where they write, and where they leave their counts.
pub proof fn law_passes_differ_in_one_switch(
    aig: Seq<char>,
    genlib: Seq<char>,
    module: Seq<char>,
    out: Seq<char>,
    stats_path: Seq<char>,
)
    ensures
        tools::emap_args_spec(aig, genlib, module, out, stats_path, true)
            == tools::emap_args_spec(aig, genlib, module, out, stats_path, false).push(
            "--multioutput"@,
        ),
{
}

/// A reply is no news of a failure: the tool did its work, or the sidecar
/// could be read. A check that did not decide is no failure either.
pub open spec fn went_well(session: SessionView, reply: ReplyView) -> bool {
    match (session.stage, reply) {
        (StageView::Extract, ReplyView::Ran(r)) => tools::verilog_fault(tools::decoded(r)) is None,
        (StageView::Convert { .. }, ReplyView::Ran(r)) => tools::liberty_fault(
            tools::decoded(r),
        ) is None,
        (StageView::BaseRun { .. }, ReplyView::Ran(r)) => tools::emap_fault(
            session.setting.tools.emap,
            tools::decoded(r),
        ) is None,
        (StageView::BaseStats { .. }, ReplyView::Read(r)) => tools::emap_stats_spec(r) is Ok,
        (StageView::MoRun { .. }, ReplyView::Ran(r)) => tools::emap_fault(
            session.setting.tools.emap,
            tools::decoded(r),
        ) is None,
        (StageView::MoStats { .. }, ReplyView::Read(r)) => tools::emap_stats_spec(r) is Ok,
        _ => true,
    }
}

/// A reply is the verdict that the re-mapped netlist is not equivalent.
pub open spec fn rejects(session: SessionView, reply: ReplyView) -> bool {
    match (session.stage, reply) {
        (StageView::Check { .. }, ReplyView::Ran(r)) => tools::cec_spec(tools::decoded(r)) == Ok::<
            bool,
            Seq<char>,
        >(false),
        _ => false,
    }
}

/// No reply so far told of a failure.
pub open spec fn all_went_well(s: SettingView, replies: Seq<ReplyView>) -> bool
    decreases replies.len(),
{
    replies.len() == 0 || {
        &&& all_went_well(s, replies.drop_last())
        &&& went_well(reached(s, replies.drop_last()).0, replies.last())
    }
}

/// A reply so far rejected the re-mapped netlist.
pub open spec fn was_rejected(s: SettingView, replies: Seq<ReplyView>) -> bool
    decreases replies.len(),
{
    replies.len() > 0 && {
        ||| was_rejected(s, replies.drop_last())
        ||| rejects(reached(s, replies.drop_last()).0, replies.last())
    }
}

/// As long as a session goes on, all went well; a rejection is known when the
/// counts are compared.
#[verifier::spinoff_prover]
proof fn lemma_going_well(s: SettingView, replies: Seq<ReplyView>)
    requires
        conversation(s, replies),
    ensures
        !(reached(s, replies).0.stage is Done) ==> all_went_well(s, replies),
        match reached(s, replies).0.stage {
            StageView::Compare { cec, .. } => was_rejected(s, replies) == report::rejected(cec),
            StageView::Done => true,
            _ => !was_rejected(s, replies),
        },
    decreases replies.len(),
{
    lemma_settled(s, replies);
    if replies.len() > 0 {
        lemma_settled(s, replies.drop_last());
        lemma_going_well(s, replies.drop_last());
    }
}

/// How a session ends, and just when. Exit code 2 stands for options that do
/// not say what to work on: there is no netlist, or there is no library and no
/// extraction failed before that was found out. Only then the working
/// directory stays. A report comes just when netlist and library are given and
/// all went well; its exit code is 0, unless the check rejected the netlist.
/// In all other cases the exit code is 1, and without a report the failure is
/// told.
#[verifier::spinoff_prover]
pub proof fn law_session_outcomes(s: SettingView, replies: Seq<ReplyView>, f: FinishView)
    requires
        conversation(s, replies),
        reached(s, replies).1 == ActionView::Finish(f),
    ensures
        f.output.code == 2 <==> s.job.netlist is None || (s.job.library is None && all_went_well(
            s,
            replies,
        )),
        f.output.code == 0 <==> {
            &&& s.job.netlist is Some
            &&& s.job.library is Some
            &&& all_went_well(s, replies)
            &&& !was_rejected(s, replies)
        },
        f.output.code == 1 <==> !all_went_well(s, replies) || was_rejected(s, replies),
        f.event is Some <==> {
            &&& s.job.netlist is Some
            &&& s.job.library is Some
            &&& all_went_well(s, replies)
        },
        f.cleanup <==> f.output.code != 2,
        f.output.code == 2 ==> {
            &&& f.output.stdout == Seq::<char>::empty()
            &&& f.output.stderr == if s.job.netlist is None {
                session::no_netlist()
            } else {
                session::no_library()
            }
        },
        s.job.netlist is None ==> replies.len() == 0,
        !all_went_well(s, replies) ==> exists|msg: Seq<char>|
            f.output == #[trigger] report::fail_spec(s.job.want_json, s.job.top, msg),
{
    lemma_settled(s, replies);
    if s.job.netlist is None {
        lemma_no_reply_without_netlist(s, replies);
    }
    if replies.len() > 0 {
        lemma_settled(s, replies.drop_last());
        lemma_going_well(s, replies.drop_last());
    }
}

/// Without a netlist a session is over before it begins.
proof fn lemma_no_reply_without_netlist(s: SettingView, replies: Seq<ReplyView>)
    requires
        s.job.netlist is None,
        conversation(s, replies),
    ensures
        replies.len() == 0,
    decreases replies.len(),
{
    if replies.len() > 0 {
        lemma_no_reply_without_netlist(s, replies.drop_last());
    }
}

/// The member names of a result envelope are different from each other.
proof fn lemma_result_fields(m: RemapView)
    ensures
        report::result_tree(m).at("schema"@) == Json::Text(report::SCHEMA@),
        report::result_tree(m).at("status"@) == Json::Text(
            if report::rejected(m.cec) {
                "error"@
            } else {
                "ok"@
            },
        ),
        report::result_tree(m).at("top"@) == Json::Text(m.top),
        report::result_tree(m).at("out_netlist"@) == Json::Text(m.out),
        report::result_tree(m).at("delta"@) == report::changes_tree(m),
        report::result_tree(m).at("multioutput_cells"@) == m.mo.mo,
        report::result_tree(m).at("cec"@) == report::cec_tree(m.cec),
{
    reveal_strlit("schema");
    reveal_strlit("status");
    reveal_strlit("top");
    reveal_strlit("aig");
    reveal_strlit("genlib");
    reveal_strlit("out_netlist");
    reveal_strlit("before");
    reveal_strlit("after");
    reveal_strlit("delta");
    reveal_strlit("multioutput_cells");
    reveal_strlit("cec");
    assert("schema"@.len() == 6 && "status"@.len() == 6 && "top"@.len() == 3);
    assert("aig"@.len() == 3 && "genlib"@.len() == 6 && "out_netlist"@.len() == 11);
    assert("before"@.len() == 6 && "after"@.len() == 5 && "delta"@.len() == 5);
    assert("multioutput_cells"@.len() == 17 && "cec"@.len() == 3);
    assert("schema"@[1] == 'c' && "status"@[1] == 't' && "genlib"@[1] == 'e' && "before"@[1] == 'e');
    assert("top"@[0] == 't' && "aig"@[0] == 'a' && "cec"@[0] == 'c');
    assert("after"@[0] == 'a' && "delta"@[0] == 'd');
}

/// The member names of a reported change are different from each other.
proof fn lemma_delta_fields(before: Json, after: Json, change: ChangeView)
    ensures
        stats::delta_tree(before, after, change).at("before"@) == before,
        stats::delta_tree(before, after, change).at("after"@) == after,
        stats::delta_tree(before, after, change).at("abs"@) == change.difference,
        stats::delta_tree(before, after, change).at("pct"@) == if stats::has_pct(before) {
            change.percent
        } else {
            Json::Null
        },
{
    reveal_strlit("before");
    reveal_strlit("after");
    reveal_strlit("abs");
    reveal_strlit("pct");
    assert("before"@.len() == 6 && "after"@.len() == 5 && "abs"@.len() == 3);
    assert("pct"@.len() == 3);
    assert("abs"@[0] == 'a' && "pct"@[0] == 'p');
}

/// A failed check makes the report an error: status and exit code say so, and
/// the summary ends with the rejection. A check that was skipped, or that
/// could not be made or did not decide, makes no failure.
pub proof fn law_check_decides(s: SettingView, m: RemapView)
    ensures
        m.cec == CecView::Checked(false) ==> {
            &&& report::result_tree(m).at("status"@) == Json::Text("error"@)
            &&& s.finish(m).output.code == 1
        },
        m.cec != CecView::Checked(false) ==> {
            &&& report::result_tree(m).at("status"@) == Json::Text("ok"@)
            &&& s.finish(m).output.code == 0
        },
        report::summary_cec(report::result_tree(m).at("cec"@)) == match m.cec {
            CecView::Checked(true) => "  cec: equivalent\n"@,
            CecView::Checked(false) => "  cec: NOT EQUIVALENT — remap rejected\n"@,
            _ => Seq::empty(),
        },
{
    lemma_result_fields(m);
    reveal_strlit("checked");
    reveal_strlit("equivalent");
    reveal_strlit("reason");
    assert("checked"@.len() == 7 && "equivalent"@.len() == 10 && "reason"@.len() == 6);
}

/// A relative change, as the summary prints it.
pub open spec fn shown_percent(before: Json, change: ChangeView, none: Seq<char>) -> Seq<char> {
    if stats::has_pct(before) {
        report::percent_or(change.percent, none)
    } else {
        none
    }
}

/// What people read is what was put into the report: the summary of the result
/// envelope shows the module, the counts of both passes with their relative
/// change, the netlist and the check.
pub proof fn law_summary_shows_the_report(m: RemapView)
    ensures
        report::summary_spec(report::result_tree(m)) == "[remap] "@ + m.top + "   "@
            + json::compact_text(m.mo.mo) + " multi-output cells\n"@ + ("  cells: "@
            + json::compact_text(m.base.gates) + " -> "@ + json::compact_text(m.mo.gates) + "  ("@
            + shown_percent(m.base.gates, m.cells, "-"@) + ")\n"@) + ("  area:  "@
            + json::compact_text(m.base.area) + " -> "@ + json::compact_text(m.mo.area) + "  ("@
            + shown_percent(m.base.area, m.area, "-"@) + ")\n"@) + "  netlist: "@ + m.out + "\n"@
            + report::summary_cec(report::cec_tree(m.cec)),
{
    lemma_result_fields(m);
    lemma_changes_fields(m);
    lemma_delta_fields(m.base.gates, m.mo.gates, m.cells);
    lemma_delta_fields(m.base.area, m.mo.area, m.area);
}

proof fn lemma_changes_fields(m: RemapView)
    ensures
        report::changes_tree(m).at("cell_count"@) == stats::delta_tree(
            m.base.gates,
            m.mo.gates,
            m.cells,
        ),
        report::changes_tree(m).at("cell_area"@) == stats::delta_tree(
            m.base.area,
            m.mo.area,
            m.area,
        ),
{
    reveal_strlit("cell_count");
    reveal_strlit("cell_area");
    assert("cell_count"@.len() == 10 && "cell_area"@.len() == 9);
}

/// The completion event carries the headline of the report and names the
/// re-mapped netlist.
pub proof fn law_event_carries_the_headline(m: RemapView)
    ensures
        report::event_spec(report::result_tree(m)).message == "remap complete on "@ + m.top
            + ": cells "@ + (report::count_text(m.base.gates) + " -> "@ + report::count_text(
            m.mo.gates,
        ) + " ("@ + shown_percent(m.base.gates, m.cells, "n/a"@) + ")"@) + ", area "@ + (
        report::count_text(m.base.area) + " -> "@ + report::count_text(m.mo.area) + " ("@
            + shown_percent(m.base.area, m.area, "n/a"@) + ")"@) + ", "@ + report::count_text(
            m.mo.mo,
        ) + " multi-output cell(s)"@,
        report::event_spec(report::result_tree(m)).objects == seq!["netlist:"@ + m.out],
{
    lemma_result_fields(m);
    lemma_changes_fields(m);
    lemma_delta_fields(m.base.gates, m.mo.gates, m.cells);
    lemma_delta_fields(m.base.area, m.mo.area, m.area);
}

/// A reported change gives both counts and their difference, and no relative
/// change from zero, whatever the arithmetic made of it.
pub proof fn law_no_percentage_of_zero(before: Json, after: Json, change: ChangeView)
    ensures
        stats::delta_tree(before, after, change).at("before"@) == before,
        stats::delta_tree(before, after, change).at("after"@) == after,
        stats::delta_tree(before, after, change).at("abs"@) == change.difference,
        before.double() is Some && stats::is_zero(before.double()->0) ==> stats::delta_tree(
            before,
            after,
            change,
        ).at("pct"@) == Json::Null,
        before.double() is Some && !stats::is_zero(before.double()->0) ==> stats::delta_tree(
            before,
            after,
            change,
        ).at("pct"@) == change.percent,
{
    lemma_delta_fields(before, after, change);
}

/// The envelope of a failure says that it is one, of which module, and why.
pub proof fn law_failure_says_why(top: Seq<char>, msg: Seq<char>)
    ensures
        report::failure_tree(top, msg).at("schema"@) == Json::Text(report::SCHEMA@),
        report::failure_tree(top, msg).at("status"@) == Json::Text("error"@),
        report::failure_tree(top, msg).at("top"@) == Json::Text(top),
        report::failure_tree(top, msg).at("error"@) == Json::Text(msg),
        report::fail_spec(true, top, msg).code == 1,
        report::fail_spec(false, top, msg).code == 1,
{
    reveal_strlit("schema");
    reveal_strlit("status");
    reveal_strlit("top");
    reveal_strlit("error");
    assert("schema"@.len() == 6 && "status"@.len() == 6 && "top"@.len() == 3);
    assert("error"@.len() == 5);
    assert("schema"@[1] == 'c' && "status"@[1] == 't');
}

/// The input that a word of a template stands for: the name in its braces.
pub open spec fn token_in(word: Seq<char>) -> Option<Seq<char>> {
    if word.len() >= 2 && word.first() == '{' && word.last() == '}' {
        Some(word.subrange(1, word.len() - 1))
    } else {
        None
    }
}

/// The inputs that a template names, in order.
pub open spec fn tokens(template: Seq<Seq<char>>) -> Seq<Seq<char>>
    decreases template.len(),
{
    if template.len() == 0 {
        Seq::empty()
    } else {
        match token_in(template.last()) {
            Some(name) => tokens(template.drop_last()).push(name),
            None => tokens(template.drop_last()),
        }
    }
}

proof fn lemma_tokens_push(template: Seq<Seq<char>>, word: Seq<char>)
    ensures
        tokens(template.push(word)) == match token_in(word) {
            Some(name) => tokens(template).push(name),
            None => tokens(template),
        },
{
    assert(template.push(word).drop_last() == template);
}

/// The published contract fits together: the inputs that it requires are just
/// those that its template names, in that order, and each of them is described.
pub proof fn law_contract_fits_together()
    ensures
        contract::describe_tree().at("invocation"@).at("args_template"@) == contract::texts_tree(
            contract::args_template(),
        ),
        contract::describe_tree().at("inputs"@).at("required"@) == contract::texts_tree(
            contract::required_inputs(),
        ),
        tokens(contract::args_template()) == contract::required_inputs(),
        forall|i: int|
            0 <= i < contract::required_inputs().len() ==> contract::describe_tree().at(
                "inputs"@,
            ).at("properties"@).member(#[trigger] contract::required_inputs()[i]) is Some,
{
    lemma_contract_members();
    reveal_strlit("emap");
    reveal_strlit("--verilog");
    reveal_strlit("{verilog}");
    reveal_strlit("--top");
    reveal_strlit("{top}");
    reveal_strlit("--genlib");
    reveal_strlit("{genlib}");
    reveal_strlit("verilog");
    reveal_strlit("top");
    reveal_strlit("genlib");
    let t0 = Seq::<Seq<char>>::empty();
    let t1 = t0.push("emap"@);
    let t2 = t1.push("--verilog"@);
    let t3 = t2.push("{verilog}"@);
    let t4 = t3.push("--top"@);
    let t5 = t4.push("{top}"@);
    let t6 = t5.push("--genlib"@);
    let t7 = t6.push("{genlib}"@);
    lemma_tokens_push(t0, "emap"@);
    lemma_tokens_push(t1, "--verilog"@);
    lemma_tokens_push(t2, "{verilog}"@);
    lemma_tokens_push(t3, "--top"@);
    lemma_tokens_push(t4, "{top}"@);
    lemma_tokens_push(t5, "--genlib"@);
    lemma_tokens_push(t6, "{genlib}"@);
    assert(token_in("{verilog}"@)->0 == "verilog"@);
    assert(token_in("{top}"@)->0 == "top"@);
    assert(token_in("{genlib}"@)->0 == "genlib"@);
    assert(contract::args_template() == t7);
    assert(tokens(t7) == contract::required_inputs());
}

proof fn lemma_contract_members()
    ensures
        contract::describe_tree().at("invocation"@) == contract::invocation_tree(),
        contract::describe_tree().at("inputs"@) == contract::inputs_tree(),
        contract::invocation_tree().at("args_template"@) == contract::texts_tree(
            contract::args_template(),
        ),
        contract::inputs_tree().at("required"@) == contract::texts_tree(
            contract::required_inputs(),
        ),
        contract::inputs_tree().at("properties"@) == contract::properties_tree(),
{
    reveal_strlit("name");
    reveal_strlit("summary");
    reveal_strlit("invocation");
    reveal_strlit("inputs");
    reveal_strlit("artifacts");
    reveal_strlit("args_template");
    reveal_strlit("optional");
    reveal_strlit("emits_json");
    reveal_strlit("type");
    reveal_strlit("required");
    reveal_strlit("properties");
    assert("invocation"@.len() == 10 && "inputs"@.len() == 6 && "artifacts"@.len() == 9);
    assert("args_template"@.len() == 13 && "optional"@.len() == 8 && "emits_json"@.len() == 10);
    assert("required"@.len() == 8 && "properties"@.len() == 10);
}

/// The counts of a sidecar are what the report gives, each as the double that
/// stands for it. A sidecar that does not count multi-output cells has none.
pub proof fn law_counts_are_reported(sidecar: Json)
    requires
        stats::stats_spec(sidecar) is Some,
    ensures
        ({
            let reported = stats::stat_tree(stats::stats_spec(sidecar)->0);
            &&& reported.at("cell_count"@).double() == sidecar.at("gates"@).double()
            &&& reported.at("cell_area"@).double() == sidecar.at("area"@).double()
            &&& reported.at("multioutput_gates"@).double() == match sidecar.at(
                "multioutput_gates"@,
            ).double() {
                Some(mo) => Some(mo),
                None => Some(0u64),
            }
        }),
{
    reveal_strlit("cell_count");
    reveal_strlit("cell_area");
    reveal_strlit("multioutput_gates");
    assert("cell_count"@.len() == 10 && "cell_area"@.len() == 9 && "multioutput_gates"@.len() == 17);
}

/// The first occurrence of an option counts: what stands behind it and its
/// value changes nothing.
pub proof fn law_first_option_counts(
    args: Seq<Seq<char>>,
    more: Seq<Seq<char>>,
    name: Seq<char>,
)
    requires
        job::opt_spec(args, name) is Some,
    ensures
        job::opt_spec(args + more, name) == job::opt_spec(args, name),
{
    args.index_of_first_ensures(name);
    (args + more).index_of_first_ensures(name);
    let i = args.index_of_first(name)->0;
    assert((args + more)[i] == name);
    assert((args + more).contains(name));
    let j = (args + more).index_of_first(name)->0;
    assert(j <= i);
    assert((args + more)[j] == args[j]);
}

/// No line holds a newline.
proof fn lemma_lines_hold_no_newline(s: Seq<char>)
    ensures
        forall|k: int| 0 <= k < text::lines(s).len() ==> !(#[trigger] text::lines(s)[k]).contains(
            '\n',
        ),
    decreases s.len(),
{
    s.index_of_first_ensures('\n');
    match s.index_of_first('\n') {
        Some(end) => {
            let rest = s.skip(end + 1);
            lemma_lines_hold_no_newline(rest);
            assert forall|k: int| 0 <= k < text::lines(s).len() implies !(
            #[trigger] text::lines(s)[k]).contains('\n') by {
                if k > 0 {
                    assert(text::lines(s)[k] == text::lines(rest)[k - 1]);
                }
            }
        },
        None => {},
    }
}

pub(crate) proof fn lemma_join_first(parts: Seq<Seq<char>>)
    requires
        parts.len() >= 2,
    ensures
        text::join_lines(parts) == parts[0] + "\n"@ + text::join_lines(parts.drop_first()),
    decreases parts.len(),
{
    let front = parts.drop_last();
    if parts.len() == 2 {
        assert(text::join_lines(front) == parts[0]);
        assert(text::join_lines(parts.drop_first()) == parts[1]);
    } else {
        lemma_join_first(front);
        assert(front.drop_first() == parts.drop_first().drop_last());
    }
}

/// Reading joined lines again gives no more lines than were joined, and just
/// those where none ends with a carriage return and the last is not empty.
proof fn lemma_lines_of_joined(parts: Seq<Seq<char>>)
    requires
        forall|k: int| 0 <= k < parts.len() ==> !(#[trigger] parts[k]).contains('\n'),
    ensures
        text::lines(text::join_lines(parts)).len() <= parts.len(),
        survives(parts) ==> text::lines(text::join_lines(parts)) == parts,
    decreases parts.len(),
{
    let joined = text::join_lines(parts);
    joined.index_of_first_ensures('\n');
    if parts.len() <= 1 {
        if parts.len() == 1 {
            assert(joined == parts[0]);
        }
    } else {
        let rest = parts.drop_first();
        lemma_join_first(parts);
        lemma_lines_of_joined(rest);
        reveal_strlit("\n");
        let end = parts[0].len() as int;
        assert("\n"@.len() == 1 && "\n"@[0] == '\n');
        assert(joined[end] == '\n');
        assert forall|k: int| 0 <= k < end implies joined[k] != '\n' by {
            assert(joined[k] == parts[0][k]);
            assert(parts[0].contains(parts[0][k]));
        }
        assert(joined.index_of_first('\n') == Some(end));
        assert(joined.take(end) == parts[0]);
        assert(joined.skip(end + 1) == text::join_lines(rest));
        if survives(parts) {
            assert(survives(rest));
            assert(parts == seq![parts[0]] + rest);
        }
    }
}

/// Lines that come out of a text again as they were joined.
pub open spec fn survives(parts: Seq<Seq<char>>) -> bool {
    &&& forall|k: int| 0 <= k < parts.len() ==> text::without_cr(#[trigger] parts[k]) == parts[k]
    &&& parts.len() > 0 ==> parts.last().len() > 0
}

/// What an error message quotes of a tool's output is its end, and short: at
/// most six lines, which are the last lines of the output (where those end
/// with no stray carriage return and the last is not empty), and all of them
/// where there are no more.
pub proof fn law_tail_is_the_end(s: Seq<char>)
    ensures
        text::lines(text::tail_spec(s)).len() <= 6,
        survives(text::last_of(text::lines(s), 6)) ==> text::lines(text::tail_spec(s))
            == text::last_of(text::lines(s), 6),
        text::lines(s).len() <= 6 ==> text::tail_spec(s) == text::join_lines(text::lines(s)),
{
    lemma_lines_hold_no_newline(s);
    let kept = text::last_of(text::lines(s), 6);
    assert forall|k: int| 0 <= k < kept.len() implies !(#[trigger] kept[k]).contains('\n') by {
        let all = text::lines(s);
        if all.len() > 6 {
            assert(kept[k] == all[k + all.len() - 6]);
        }
    }
    lemma_lines_of_joined(kept);
}

/// Verilog needs its top module named: without `--top` and without an AIGER
/// netlist no tool runs, and the session ends at once with exit code 2.
pub proof fn law_verilog_needs_its_top(args: Seq<Seq<char>>, s: SettingView)
    requires
        s.job == job::job_spec(args),
        job::opt_spec(args, "--aig"@) is None,
        job::opt_spec(args, "--top"@) is None,
    ensures
        s.begin() == s.misused(session::no_netlist()),
        s.begin().1 is Finish,
        s.begin().1->Finish_0.output.code == 2,
{
}

/// The artifact that the published contract promises is in every report: the
/// member that it names is the path of the re-mapped netlist.
pub proof fn law_artifact_is_reported(m: RemapView)
    ensures
        contract::describe_tree().at("artifacts"@) is Array,
        contract::describe_tree().at("artifacts"@)->Array_0.len() == 1,
        contract::describe_tree().at("artifacts"@)->Array_0[0].at("field"@).text() is Some,
        report::result_tree(m).at(
            contract::describe_tree().at("artifacts"@)->Array_0[0].at("field"@).text()->0,
        ) == Json::Text(m.out),
{
    lemma_result_fields(m);
    reveal_strlit("role");
    reveal_strlit("field");
    assert("role"@.len() == 4 && "field"@.len() == 5);
}

/// The arguments behind the command of a call by the published template.
pub open spec fn template_call(
    verilog: Seq<char>,
    top: Seq<char>,
    genlib: Seq<char>,
) -> Seq<Seq<char>> {
    seq!["--verilog"@, verilog, "--top"@, top, "--genlib"@, genlib]
}

/// An input cannot be told from an option that changes what is asked for.
pub open spec fn is_switch(input: Seq<char>) -> bool {
    input == "--json"@ || input == "--no-cec"@
}

/// An input cannot be told from an option whose value would be read from the
/// argument behind it.
pub open spec fn takes_a_value(input: Seq<char>) -> bool {
    input == "--aig"@ || input == "-o"@ || input == "--out"@
}

/// A call by the published template is understood as it is meant: its inputs
/// are the netlist, the module and the library, everything else is as usual.
pub proof fn law_template_is_understood(verilog: Seq<char>, top: Seq<char>, genlib: Seq<char>)
    requires
        !is_switch(verilog) && !is_switch(top) && !is_switch(genlib),
        !takes_a_value(verilog) && !takes_a_value(top),
        verilog == "--top"@ ==> top == "--top"@,
        verilog == "--genlib"@ ==> genlib == "--top"@,
        top == "--genlib"@ && verilog != "--genlib"@ ==> genlib == "--genlib"@,
    ensures
        job::job_spec(template_call(verilog, top, genlib)) == (JobView {
            want_json: false,
            top,
            out: "remap_out.v"@,
            netlist: Some(NetlistView::Verilog(verilog)),
            library: Some(CellLibraryView::Genlib(genlib)),
            check: true,
        }),
{
    let args = template_call(verilog, top, genlib);
    lemma_option_names_differ();
    args.index_of_first_ensures("--json"@);
    args.index_of_first_ensures("--no-cec"@);
    args.index_of_first_ensures("--top"@);
    args.index_of_first_ensures("-o"@);
    args.index_of_first_ensures("--out"@);
    args.index_of_first_ensures("--aig"@);
    args.index_of_first_ensures("--verilog"@);
    args.index_of_first_ensures("--genlib"@);
    assert(args[0] == "--verilog"@ && args[2] == "--top"@ && args[4] == "--genlib"@);
    assert(args[1] == verilog && args[3] == top && args[5] == genlib);
}

/// A call by the published template with its optional output is understood
/// as it is meant: besides the netlist, the module and the library it gives
/// the file to write.
pub proof fn law_template_with_output_is_understood(
    verilog: Seq<char>,
    top: Seq<char>,
    genlib: Seq<char>,
    out: Seq<char>,
)
    requires
        !is_switch(verilog) && !is_switch(top) && !is_switch(genlib) && !is_switch(out),
        verilog != "--aig"@ && top != "--aig"@ && genlib != "--aig"@,
        verilog == "--top"@ ==> top == "--top"@,
        verilog == "--genlib"@ ==> genlib == "--top"@,
        top == "--genlib"@ && verilog != "--genlib"@ ==> genlib == "--genlib"@,
        verilog == "-o"@ ==> out == "--top"@,
        top == "-o"@ && verilog != "-o"@ ==> out == "--genlib"@,
        genlib == "-o"@ && top != "-o"@ && verilog != "-o"@ ==> out == "-o"@,
    ensures
        job::job_spec(template_call(verilog, top, genlib) + seq!["-o"@, out]) == (JobView {
            want_json: false,
            top,
            out,
            netlist: Some(NetlistView::Verilog(verilog)),
            library: Some(CellLibraryView::Genlib(genlib)),
            check: true,
        }),
{
    let args = template_call(verilog, top, genlib) + seq!["-o"@, out];
    lemma_option_names_differ();
    args.index_of_first_ensures("--json"@);
    args.index_of_first_ensures("--no-cec"@);
    args.index_of_first_ensures("--top"@);
    args.index_of_first_ensures("-o"@);
    args.index_of_first_ensures("--aig"@);
    args.index_of_first_ensures("--verilog"@);
    args.index_of_first_ensures("--genlib"@);
    assert(args[0] == "--verilog"@ && args[2] == "--top"@ && args[4] == "--genlib"@);
    assert(args[1] == verilog && args[3] == top && args[5] == genlib);
    assert(args[6] == "-o"@ && args[7] == out);
}

/// The names of the files in the working directory differ, so no two of its
/// paths are the same, wherever it is.
pub proof fn law_work_files_differ(prefix: Seq<char>)
    ensures
        session::DESIGN_AIG@ != session::TECH_GENLIB@,
        session::DESIGN_AIG@ != session::BASE_V@,
        session::DESIGN_AIG@ != session::BASE_JSON@,
        session::DESIGN_AIG@ != session::MO_JSON@,
        session::TECH_GENLIB@ != session::BASE_V@,
        session::TECH_GENLIB@ != session::BASE_JSON@,
        session::TECH_GENLIB@ != session::MO_JSON@,
        session::BASE_V@ != session::BASE_JSON@,
        session::BASE_V@ != session::MO_JSON@,
        session::BASE_JSON@ != session::MO_JSON@,
        WorkView::under(prefix).distinct(),
{
    reveal_strlit("design.aig");
    reveal_strlit("tech.genlib");
    reveal_strlit("base.v");
    reveal_strlit("base.json");
    reveal_strlit("mo.json");
    let work = WorkView::under(prefix);
    assert(work.design_aig.len() == prefix.len() + 10);
    assert(work.tech_genlib.len() == prefix.len() + 11);
    assert(work.base_v.len() == prefix.len() + 6);
    assert(work.base_json.len() == prefix.len() + 9);
    assert(work.mo_json.len() == prefix.len() + 7);
}

/// The two passes leave their counts at different paths, and the counts of
/// each are read where it left them.
pub proof fn law_passes_leave_their_counts_apart(s: SettingView)
    requires
        s.work.distinct(),
    ensures
        passes(s)[0] == s.map_action(
            netlist_path(s),
            library_path(s),
            s.work.base_v,
            s.work.base_json,
            false,
        ),
        passes(s)[1] == ActionView::Read(s.work.base_json),
        passes(s)[2] == s.map_action(
            netlist_path(s),
            library_path(s),
            s.job.out,
            s.work.mo_json,
            true,
        ),
        passes(s)[3] == ActionView::Read(s.work.mo_json),
        s.work.base_json != s.work.mo_json,
        passes(s)[1] != passes(s)[3],
{
}

pub(crate) proof fn lemma_option_names_differ()
    ensures
        "-o"@ != "--json"@,
        "-o"@ != "--no-cec"@,
        "-o"@ != "--aig"@,
        "--verilog"@ != "--top"@,
        "--verilog"@ != "--genlib"@,
        "--verilog"@ != "--json"@,
        "--verilog"@ != "--no-cec"@,
        "--verilog"@ != "--aig"@,
        "--verilog"@ != "-o"@,
        "--verilog"@ != "--out"@,
        "--top"@ != "--genlib"@,
        "--top"@ != "--json"@,
        "--top"@ != "--no-cec"@,
        "--top"@ != "--aig"@,
        "--top"@ != "-o"@,
        "--top"@ != "--out"@,
        "--genlib"@ != "--json"@,
        "--genlib"@ != "--no-cec"@,
        "--genlib"@ != "--aig"@,
        "--genlib"@ != "-o"@,
        "--genlib"@ != "--out"@,
{
    reveal_strlit("--verilog");
    reveal_strlit("--top");
    reveal_strlit("--genlib");
    reveal_strlit("--json");
    reveal_strlit("--no-cec");
    reveal_strlit("--aig");
    reveal_strlit("-o");
    reveal_strlit("--out");
    assert("--verilog"@.len() == 9 && "--top"@.len() == 5 && "--genlib"@.len() == 8);
    assert("--json"@.len() == 6 && "--no-cec"@.len() == 8 && "--aig"@.len() == 5);
    assert("-o"@.len() == 2 && "--out"@.len() == 5);
    assert("--genlib"@[2] == 'g' && "--no-cec"@[2] == 'n');
    assert("--top"@[2] == 't' && "--aig"@[2] == 'a' && "--out"@[2] == 'o');
}

}
