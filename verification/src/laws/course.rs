//! Laws of the course of a session: what it asks for, what it takes as an
//! answer, and what it tells at its end.

use vstd::prelude::*;

use super::reading;
use super::reporting;
use super::tooling;
use crate::job;
use crate::job::{CellLibraryView, NetlistView};
use crate::json;
use crate::json::Json;
use crate::report;
use crate::report::{CecView, RemapView};
use crate::session;
use crate::session::{
    ActionView, FinishView, ReplyView, SessionView, SettingView, StageView, WorkView,
};
use crate::stats::StatsView;
use crate::text;
use crate::tools;
use crate::tools::{ExitTextView, ReadReplyView, RunReplyView, RunTextView};

verus! {

/// What a session asked for decides what it takes as an answer: a run any
/// outcome of a run, a reading any outcome of a reading, a comparison its
/// result. After its end it takes none.
pub proof fn law_any_outcome_is_an_answer(
    s: SettingView,
    replies: Seq<ReplyView>,
    reply: ReplyView,
)
    requires
        super::conversation(s, replies),
    ensures
        super::reached(s, replies).0.expects(reply) <==> match super::reached(s, replies).1 {
            ActionView::Run(_) => reply is Ran,
            ActionView::Read(_) => reply is Read,
            ActionView::Compare { .. } => reply is Compared,
            ActionView::Finish(_) => false,
        },
    decreases replies.len(),
{
    super::lemma_settled(s, replies);
    if replies.len() > 0 {
        super::lemma_settled(s, replies.drop_last());
        law_any_outcome_is_an_answer(s, replies.drop_last(), replies.last());
    }
}

/// The same for a session in any stage, whatever it knows there.
pub proof fn law_each_stage_waits_for_one_answer(at: SessionView, reply: ReplyView)
    ensures
        at.stage is Extract || at.stage is Convert || at.stage is BaseRun || at.stage is MoRun
            || at.stage is Check ==> (at.expects(reply) <==> reply is Ran),
        at.stage is BaseStats || at.stage is MoStats ==> (at.expects(reply) <==> reply is Read),
        at.stage is Compare ==> (at.expects(reply) <==> reply is Compared),
        at.stage is Done ==> !at.expects(reply),
{
}

/// The extraction of the netlist of the module from Verilog into the working
/// directory, by Yosys.
pub open spec fn is_extraction(s: SettingView, action: ActionView) -> bool {
    &&& action is Run
    &&& s.job.netlist is Some && s.job.netlist->0 is Verilog
    &&& action->Run_0.program == s.tools.yosys
    &&& action->Run_0.args == seq![
        "-q"@,
        "-p"@,
        tools::verilog_script(s.job.netlist->0->Verilog_0, s.job.top, s.work.design_aig),
    ]
    &&& action->Run_0.produces == Some(s.work.design_aig)
}

/// The conversion of a Liberty file into the working directory, by ABC.
pub open spec fn is_conversion(s: SettingView, action: ActionView) -> bool {
    &&& action is Run
    &&& s.job.library is Some && s.job.library->0 is Liberty
    &&& action->Run_0.program == s.tools.abc
    &&& action->Run_0.args == seq![
        "-q"@,
        tools::liberty_script(s.job.library->0->Liberty_0, s.work.tech_genlib),
    ]
    &&& action->Run_0.produces == Some(s.work.tech_genlib)
}

/// A pass of the mapper on a netlist and a library, under the name of the
/// module of the session.
pub open spec fn is_pass(
    s: SettingView,
    action: ActionView,
    aig: Seq<char>,
    genlib: Seq<char>,
    out: Seq<char>,
    stats_path: Seq<char>,
    multioutput: bool,
) -> bool {
    &&& action is Run
    &&& action->Run_0.program == s.tools.emap
    &&& action->Run_0.produces is None
    &&& action->Run_0.args[0] == "--aig"@
    &&& tooling::passed(action->Run_0.args, "--aig"@, aig)
    &&& tooling::passed(action->Run_0.args, "--genlib"@, genlib)
    &&& tooling::passed(action->Run_0.args, "-o"@, out)
    &&& tooling::passed(action->Run_0.args, "--stats"@, stats_path)
    &&& s.job.top.len() > 0 ==> tooling::passed(action->Run_0.args, "--module"@, s.job.top)
    &&& s.job.top.len() == 0 ==> tooling::not_passed(action->Run_0.args, "--module"@)
    &&& multioutput <==> !tooling::not_passed(action->Run_0.args, "--multioutput"@)
    &&& action->Run_0.args.len() == 8 + (if s.job.top.len() > 0 {
        2int
    } else {
        0
    }) + (if multioutput {
        1int
    } else {
        0
    })
}

/// The check of the re-mapped netlist against the one that was mapped, by ABC.
pub open spec fn is_check(
    s: SettingView,
    action: ActionView,
    aig: Seq<char>,
    genlib: Seq<char>,
) -> bool {
    &&& action is Run
    &&& action->Run_0.program == s.tools.abc
    &&& action->Run_0.args == seq![
        "-q"@,
        tools::cec_script(genlib, s.job.out, aig),
    ]
    &&& action->Run_0.produces is None
}

/// The action is the one for a stage: it works on what the stage knows and
/// brings what the stage waits for. The baseline writes to the working
/// directory, the multi-output pass writes the netlist that is asked for, each
/// sidecar is read where the pass left it, and the check is on the netlist that
/// was written.
pub open spec fn fits(s: SettingView, stage: StageView, action: ActionView) -> bool {
    match stage {
        StageView::Extract => is_extraction(s, action),
        StageView::Convert { .. } => is_conversion(s, action),
        StageView::BaseRun { aig, genlib } => is_pass(
            s,
            action,
            aig,
            genlib,
            s.work.base_v,
            s.work.base_json,
            false,
        ),
        StageView::BaseStats { .. } => action == ActionView::Read(s.work.base_json),
        StageView::MoRun { aig, genlib, .. } => is_pass(
            s,
            action,
            aig,
            genlib,
            s.job.out,
            s.work.mo_json,
            true,
        ),
        StageView::MoStats { .. } => action == ActionView::Read(s.work.mo_json),
        StageView::Check { aig, genlib, .. } => is_check(s, action, aig, genlib),
        StageView::Compare { base, mo, .. } => {
            &&& action is Compare
            &&& action->cells.before == base.gates
            &&& action->cells.after == mo.gates
            &&& action->area.before == base.area
            &&& action->area.after == mo.area
        },
        StageView::Done => action is Finish,
    }
}

/// A step leads to a stage, with the action for it.
pub open spec fn leads_to(
    s: SettingView,
    step: (SessionView, ActionView),
    stage: StageView,
) -> bool {
    step.0 == (SessionView { setting: s, stage }) && fits(s, stage, step.1)
}

/// A step ends the session with a failure: the working directory is removed,
/// there is no event, and the message is told for the module of the session.
pub open spec fn fails_with(
    s: SettingView,
    step: (SessionView, ActionView),
    msg: Seq<char>,
) -> bool {
    &&& leads_to(s, step, StageView::Done)
    &&& step.1->Finish_0.cleanup
    &&& step.1->Finish_0.event is None
    &&& step.1->Finish_0.output == report::fail_spec(s.job.want_json, s.job.top, msg)
}

/// A step ends the session since something is not given: nothing is removed,
/// there is no event, and the message goes to the error stream with exit
/// code 2.
pub open spec fn refuses_with(
    s: SettingView,
    step: (SessionView, ActionView),
    msg: Seq<char>,
) -> bool {
    &&& leads_to(s, step, StageView::Done)
    &&& !step.1->Finish_0.cleanup
    &&& step.1->Finish_0.event is None
    &&& step.1->Finish_0.output.stdout.len() == 0
    &&& step.1->Finish_0.output.stderr == msg
    &&& step.1->Finish_0.output.code == 2
}

/// A step ends the session with a report.
pub open spec fn reports(s: SettingView, step: (SessionView, ActionView), m: RemapView) -> bool {
    &&& leads_to(s, step, StageView::Done)
    &&& is_report(s, step.1->Finish_0, m)
}

/// A session ends with a report: the working directory is removed, the event is
/// on the envelope, and the envelope is printed in the form that is asked for.
/// The exit code is 1 just when the netlist was found not to be equivalent.
pub open spec fn is_report(s: SettingView, f: FinishView, m: RemapView) -> bool {
    &&& f.cleanup
    &&& f.event == Some(report::event_spec(report::result_tree(m)))
    &&& f.output.stderr.len() == 0
    &&& s.job.want_json ==> f.output.stdout == json::pretty_text(report::result_tree(m)) + seq![
        '\n',
    ]
    &&& !s.job.want_json ==> f.output.stdout == report::summary_spec(report::result_tree(m))
    &&& f.output.code == if m.cec is Checked && !m.cec->Checked_0 {
        1int
    } else {
        0
    }
}

/// The first step of any session: a netlist is taken as it is given, Verilog is
/// extracted first, and without either the session is refused.
pub proof fn law_a_session_begins_with_its_netlist(s: SettingView)
    ensures
        match s.job.netlist {
            Some(NetlistView::Aig(aig)) => s.begin() == s.with_netlist(aig),
            Some(NetlistView::Verilog(_)) => leads_to(s, s.begin(), StageView::Extract),
            None => refuses_with(
                s,
                s.begin(),
                "vyges-remap emap: --aig <a.aig> or --verilog <d.v> (with --top) is required\n"@,
            ),
        },
{
}

/// The steps of any session, whatever it knows: a genlib is taken as it is
/// given, a Liberty file is converted first; then comes the baseline, then the
/// multi-output pass, then the check where it is asked for, and then the
/// comparison. Each goes on with what is known and what was found, and a
/// failure ends the session.
pub proof fn law_each_step_leads_to_the_next(
    s: SettingView,
    aig: Seq<char>,
    genlib: Seq<char>,
    base: StatsView,
    mo: StatsView,
    cec: CecView,
    e: Seq<char>,
)
    ensures
        match s.job.library {
            Some(CellLibraryView::Genlib(given)) => leads_to(
                s,
                s.with_netlist(aig),
                StageView::BaseRun { aig, genlib: given },
            ),
            Some(CellLibraryView::Liberty(_)) => leads_to(
                s,
                s.with_netlist(aig),
                StageView::Convert { aig },
            ),
            None => refuses_with(
                s,
                s.with_netlist(aig),
                "vyges-remap emap: --genlib <g> or --liberty <lib> is required\n"@,
            ),
        },
        leads_to(s, s.with_library(aig, genlib), StageView::BaseRun { aig, genlib }),
        leads_to(
            s,
            s.with_base(aig, genlib, Ok(base)),
            StageView::MoRun { aig, genlib, base },
        ),
        fails_with(s, s.with_base(aig, genlib, Err(e)), e),
        s.job.check ==> leads_to(
            s,
            s.with_mo(aig, genlib, base, Ok(mo)),
            StageView::Check { aig, genlib, base, mo },
        ),
        !s.job.check ==> leads_to(
            s,
            s.with_mo(aig, genlib, base, Ok(mo)),
            StageView::Compare { aig, genlib, base, mo, cec: CecView::Skipped },
        ),
        fails_with(s, s.with_mo(aig, genlib, base, Err(e)), e),
        leads_to(
            s,
            s.with_cec(aig, genlib, base, mo, cec),
            StageView::Compare { aig, genlib, base, mo, cec },
        ),
        fails_with(s, s.failed(e), e),
        refuses_with(s, s.misused(e), e),
{
    lemma_passes(s, aig, genlib);
    if s.job.library is Some && s.job.library->0 is Genlib {
        lemma_passes(s, aig, s.job.library->0->Genlib_0);
    }
}

proof fn lemma_passes(s: SettingView, aig: Seq<char>, genlib: Seq<char>)
    ensures
        is_pass(
            s,
            s.base_action(aig, genlib),
            aig,
            genlib,
            s.work.base_v,
            s.work.base_json,
            false,
        ),
        is_pass(s, s.mo_action(aig, genlib), aig, genlib, s.job.out, s.work.mo_json, true),
{
    let top = s.job.top;
    tooling::law_a_pass_is_told_everything(
        aig,
        genlib,
        top,
        s.work.base_v,
        s.work.base_json,
        false,
    );
    tooling::law_a_pass_is_told_everything(aig, genlib, top, s.job.out, s.work.mo_json, true);
}

/// What any finished re-mapping ends with.
pub proof fn law_a_finish_reports(s: SettingView, m: RemapView)
    ensures
        is_report(s, s.finish(m), m),
{
    reporting::law_any_summary_shows_its_report(report::result_tree(m));
    reporting::law_a_check_is_reported(m.cec);
}

/// What any session makes of a reply that it expects, whatever it knows: a
/// complaint is told at once. Otherwise an extracted netlist and a converted
/// library are used from then on, each pass has its sidecar read and its counts
/// kept, a check is kept whatever it found, and the comparison is reported
/// together with all that is known.
pub proof fn law_each_reply_brings_a_session_on(at: SessionView, reply: ReplyView)
    requires
        at.expects(reply),
    ensures
        ({
            let s = at.setting;
            let step = at.next(reply);
            &&& complaint(at, reply) is Some ==> fails_with(s, step, complaint(at, reply)->0)
            &&& complaint(at, reply) is None ==> match at.stage {
                StageView::Extract => step == s.with_netlist(s.work.design_aig),
                StageView::Convert { aig } => leads_to(
                    s,
                    step,
                    StageView::BaseRun { aig, genlib: s.work.tech_genlib },
                ),
                StageView::BaseRun { aig, genlib } => leads_to(
                    s,
                    step,
                    StageView::BaseStats { aig, genlib },
                ),
                StageView::BaseStats { aig, genlib } => leads_to(
                    s,
                    step,
                    StageView::MoRun {
                        aig,
                        genlib,
                        base: tools::emap_stats_spec(reply->Read_0)->Ok_0,
                    },
                ),
                StageView::MoRun { aig, genlib, base } => leads_to(
                    s,
                    step,
                    StageView::MoStats { aig, genlib, base },
                ),
                StageView::MoStats { aig, genlib, base } => step == s.with_mo(
                    aig,
                    genlib,
                    base,
                    tools::emap_stats_spec(reply->Read_0),
                ),
                StageView::Check { aig, genlib, base, mo } => leads_to(
                    s,
                    step,
                    StageView::Compare { aig, genlib, base, mo, cec: found_by(reply->Ran_0) },
                ),
                StageView::Compare { aig, genlib, base, mo, cec } => reports(
                    s,
                    step,
                    RemapView {
                        top: s.job.top,
                        aig,
                        genlib,
                        out: s.job.out,
                        base,
                        mo,
                        cells: reply->cells,
                        area: reply->area,
                        cec,
                    },
                ),
                StageView::Done => false,
            }
        }),
{
    let s = at.setting;
    match at.stage {
        StageView::Convert { aig } => {
            lemma_passes(s, aig, s.work.tech_genlib);
        },
        StageView::BaseStats { aig, genlib } => {
            lemma_passes(s, aig, genlib);
        },
        StageView::Compare { aig, genlib, base, mo, cec } => {
            law_a_finish_reports(
                s,
                RemapView {
                    top: s.job.top,
                    aig,
                    genlib,
                    out: s.job.out,
                    base,
                    mo,
                    cells: reply->cells,
                    area: reply->area,
                    cec,
                },
            );
        },
        _ => {},
    }
}

/// What a check found: its verdict, or the reason why there is none.
pub open spec fn found_by(reply: RunReplyView) -> CecView {
    match tools::cec_spec(tools::decoded(reply)) {
        Ok(verdict) => CecView::Checked(verdict),
        Err(why) => CecView::Unknown(why),
    }
}

/// What a session asked for last is the action for the stage that it waits in,
/// in every session and at every point of it.
#[verifier::spinoff_prover]
pub proof fn law_each_step_does_its_work(s: SettingView, replies: Seq<ReplyView>)
    requires
        super::conversation(s, replies),
    ensures
        fits(s, super::reached(s, replies).0.stage, super::reached(s, replies).1),
        super::reached(s, replies).0.setting == s,
{
    super::lemma_settled(s, replies);
    lemma_passes(s, super::netlist_path(s), super::library_path(s));
    if replies.len() > 0 {
        super::lemma_settled(s, replies.drop_last());
    }
}

/// The mapper is told the name of the module in every pass of every session,
/// whatever kinds of netlist and library are given: the one behind `--top`
/// where that is given and not empty, and `top` where it is not given. It is
/// the module that the report names.
pub proof fn law_each_pass_names_the_module(
    args: Seq<Seq<char>>,
    top: Seq<char>,
    s: SettingView,
    replies: Seq<ReplyView>,
)
    requires
        s.job == job::job_spec(args),
        super::conversation(s, replies),
        super::reached(s, replies).1 is Run,
        super::reached(s, replies).1->Run_0.args[0] == "--aig"@,
    ensures
        reading::given(args, "--top"@, top) && top.len() > 0 ==> tooling::passed(
            super::reached(s, replies).1->Run_0.args,
            "--module"@,
            top,
        ),
        reading::missing(args, "--top"@) ==> tooling::passed(
            super::reached(s, replies).1->Run_0.args,
            "--module"@,
            "top"@,
        ),
        reading::given(args, "--top"@, top) ==> s.job.top == top,
{
    law_each_step_does_its_work(s, replies);
    reading::law_a_job_is_what_the_arguments_say(args, top);
    reveal_strlit("-q");
    reveal_strlit("--aig");
    reveal_strlit("top");
    assert("-q"@.len() == 2 && "--aig"@.len() == 5 && "top"@.len() == 3);
}

/// What a reply tells of a failure, if it does.
pub open spec fn complaint(session: SessionView, reply: ReplyView) -> Option<Seq<char>> {
    match (session.stage, reply) {
        (StageView::Extract, ReplyView::Ran(r)) => match tools::verilog_fault(tools::decoded(r)) {
            Some(e) => Some("Verilog->AIG: "@ + e),
            None => None,
        },
        (StageView::Convert { .. }, ReplyView::Ran(r)) => match tools::liberty_fault(
            tools::decoded(r),
        ) {
            Some(e) => Some("Liberty->genlib: "@ + e),
            None => None,
        },
        (StageView::BaseRun { .. }, ReplyView::Ran(r)) => tools::emap_fault(
            session.setting.tools.emap,
            tools::decoded(r),
        ),
        (StageView::MoRun { .. }, ReplyView::Ran(r)) => tools::emap_fault(
            session.setting.tools.emap,
            tools::decoded(r),
        ),
        (StageView::BaseStats { .. }, ReplyView::Read(r)) => tools::emap_stats_spec(r).err(),
        (StageView::MoStats { .. }, ReplyView::Read(r)) => tools::emap_stats_spec(r).err(),
        _ => None,
    }
}

/// A tool says in its printed words that the netlists are not equivalent, and
/// nowhere that they are.
pub open spec fn says_not_equivalent(reply: ReplyView) -> bool {
    &&& reply is Ran
    &&& reply->Ran_0 is Exited
    &&& tooling::prints(printed_by(reply), "Networks are NOT equivalent"@)
    &&& !tooling::prints(printed_by(reply), "Networks are equivalent"@)
}

/// A tool says in its printed words that the netlists are equivalent.
pub open spec fn says_equivalent(reply: ReplyView) -> bool {
    &&& reply is Ran
    &&& reply->Ran_0 is Exited
    &&& tooling::prints(printed_by(reply), "Networks are equivalent"@)
}

/// What a program that ended printed, as text.
pub open spec fn printed_by(reply: ReplyView) -> ExitTextView {
    let exit = reply->Ran_0->Exited_0;
    ExitTextView {
        success: exit.success,
        code: exit.code,
        stdout: text::lossy_text(exit.stdout),
        stderr: text::lossy_text(exit.stderr),
        produced: exit.produced,
    }
}

/// The JSON that a reply brings as a sidecar.
pub open spec fn sidecar_in(reply: ReplyView) -> Option<Json> {
    match reply {
        ReplyView::Read(ReadReplyView::Text(content)) => json::parsed(content),
        _ => None,
    }
}

/// A reported count is the number that a sidecar gives under `key`.
pub open spec fn is_count_of(count: Json, sidecar: Json, key: Seq<char>) -> bool {
    &&& tooling::number_in(sidecar, key) is Some
    &&& count.double() == tooling::number_in(sidecar, key)
}

/// The reported counts of a pass are the numbers of its sidecar, and no
/// multi-output cells where that gives no number of them.
pub open spec fn are_counts_of(counts: Json, sidecar: Json) -> bool {
    &&& is_count_of(counts.at("cell_count"@), sidecar, "gates"@)
    &&& is_count_of(counts.at("cell_area"@), sidecar, "area"@)
    &&& counts.at("multioutput_gates"@).double() == match tooling::number_in(
        sidecar,
        "multioutput_gates"@,
    ) {
        Some(mo) => Some(mo),
        None => Some(0u64),
    }
}

/// Every finished re-mapping reports what its replies said: before are the
/// counts of the sidecar of the baseline, after are those of the sidecar of
/// the multi-output pass, whether or not a check was made and whatever it
/// found; the changes are those of the comparison. The module, the netlist,
/// the library and the written netlist are those of the session. The report is
/// what is printed, in the form that is asked for, and what the event is on.
pub proof fn law_a_report_is_what_the_replies_said(
    s: SettingView,
    replies: Seq<ReplyView>,
    f: FinishView,
) -> (t: Json)
    requires
        super::conversation(s, replies),
        super::reached(s, replies).1 == ActionView::Finish(f),
        f.event is Some,
    ensures
        s.job.want_json ==> f.output.stdout == json::pretty_text(t) + seq!['\n'],
        !s.job.want_json ==> f.output.stdout == report::summary_spec(t),
        f.output.stderr.len() == 0,
        f.event == Some(report::event_spec(t)),
        f.cleanup,
        reporting::has_just(t, reporting::envelope_members()),
        t.at("top"@) == Json::Text(s.job.top),
        t.at("aig"@) == Json::Text(super::netlist_path(s)),
        t.at("genlib"@) == Json::Text(super::library_path(s)),
        t.at("out_netlist"@) == Json::Text(s.job.out),
        sidecar_in(replies[super::lead(s) + 1]) is Some,
        sidecar_in(replies[super::lead(s) + 3]) is Some,
        are_counts_of(t.at("before"@), sidecar_in(replies[super::lead(s) + 1])->0),
        are_counts_of(t.at("after"@), sidecar_in(replies[super::lead(s) + 3])->0),
        t.at("multioutput_cells"@) == t.at("after"@).at("multioutput_gates"@),
        replies.last() is Compared,
        reporting::gives_change(
            t.at("delta"@).at("cell_count"@),
            t.at("before"@).at("cell_count"@),
            t.at("after"@).at("cell_count"@),
            replies.last()->cells,
        ),
        reporting::gives_change(
            t.at("delta"@).at("cell_area"@),
            t.at("before"@).at("cell_area"@),
            t.at("after"@).at("cell_area"@),
            replies.last()->area,
        ),
        !s.job.check ==> {
            &&& t.at("cec"@).at("checked"@) == Json::Bool(false)
            &&& t.at("status"@) == Json::Text("ok"@)
            &&& f.output.code == 0
        },
        s.job.check ==> replies[super::lead(s) + 4] is Ran,
        s.job.check && says_not_equivalent(replies[super::lead(s) + 4]) ==> {
            &&& t.at("cec"@).at("checked"@) == Json::Bool(true)
            &&& t.at("cec"@).at("equivalent"@) == Json::Bool(false)
            &&& t.at("status"@) == Json::Text("error"@)
            &&& f.output.code == 1
        },
        s.job.check && says_equivalent(replies[super::lead(s) + 4]) ==> {
            &&& t.at("cec"@).at("checked"@) == Json::Bool(true)
            &&& t.at("cec"@).at("equivalent"@) == Json::Bool(true)
            &&& t.at("status"@) == Json::Text("ok"@)
            &&& f.output.code == 0
        },
        s.job.check && !says_equivalent(replies[super::lead(s) + 4]) && !says_not_equivalent(
            replies[super::lead(s) + 4],
        ) ==> {
            &&& t.at("cec"@).at("checked"@) == Json::Bool(false)
            &&& t.at("status"@) == Json::Text("ok"@)
            &&& f.output.code == 0
        },
{
    let m = super::law_report_follows_both_passes(s, replies, f);
    let t = report::result_tree(m);
    reporting::law_an_envelope_gives_everything(m);
    reporting::law_any_summary_shows_its_report(t);
    reporting::law_a_check_is_reported(m.cec);
    lemma_counted(replies[super::lead(s) + 1], m.base, t.at("before"@));
    lemma_counted(replies[super::lead(s) + 3], m.mo, t.at("after"@));
    if s.job.check {
        lemma_judged(replies[super::lead(s) + 4], m.cec);
    }
    t
}

/// A session that reports has run the mapper twice on the netlist and the
/// library that the report names, under the name of the module that the report
/// gives, whatever kinds of netlist and library were given.
pub proof fn law_both_passes_map_what_is_reported(
    s: SettingView,
    replies: Seq<ReplyView>,
    f: FinishView,
) -> (t: Json)
    requires
        super::conversation(s, replies),
        super::reached(s, replies).1 == ActionView::Finish(f),
        f.event is Some,
    ensures
        f.event == Some(report::event_spec(t)),
        s.job.want_json ==> f.output.stdout == json::pretty_text(t) + seq!['\n'],
        t.at("top"@) is Text && t.at("aig"@) is Text && t.at("genlib"@) is Text,
        ({
            let asked = super::actions(s, replies);
            let top = t.at("top"@)->Text_0;
            let aig = t.at("aig"@)->Text_0;
            let genlib = t.at("genlib"@)->Text_0;
            let first = asked[super::lead(s)];
            let second = asked[super::lead(s) + 2];
            &&& is_pass(s, first, aig, genlib, s.work.base_v, s.work.base_json, false)
            &&& is_pass(s, second, aig, genlib, s.job.out, s.work.mo_json, true)
            &&& top.len() > 0 ==> tooling::passed(first->Run_0.args, "--module"@, top)
            &&& top.len() > 0 ==> tooling::passed(second->Run_0.args, "--module"@, top)
            &&& asked[super::lead(s) + 1] == ActionView::Read(s.work.base_json)
            &&& asked[super::lead(s) + 3] == ActionView::Read(s.work.mo_json)
        }),
{
    let m = lemma_asked_passes(s, replies, f);
    lemma_both_passes(s);
    lemma_named(s, f, m);
    report::result_tree(m)
}

proof fn lemma_named(s: SettingView, f: FinishView, m: RemapView)
    requires
        f == s.finish(m),
    ensures
        f.event == Some(report::event_spec(report::result_tree(m))),
        s.job.want_json ==> f.output.stdout == json::pretty_text(report::result_tree(m)) + seq![
            '\n',
        ],
        report::result_tree(m).at("top"@) == Json::Text(m.top),
        report::result_tree(m).at("aig"@) == Json::Text(m.aig),
        report::result_tree(m).at("genlib"@) == Json::Text(m.genlib),
{
    law_a_finish_reports(s, m);
    reporting::law_an_envelope_gives_everything(m);
}

proof fn lemma_asked_passes(s: SettingView, replies: Seq<ReplyView>, f: FinishView) -> (m: RemapView)
    requires
        super::conversation(s, replies),
        super::reached(s, replies).1 == ActionView::Finish(f),
        f.event is Some,
    ensures
        f == s.finish(m),
        m.top == s.job.top,
        m.aig == super::netlist_path(s),
        m.genlib == super::library_path(s),
        super::actions(s, replies)[super::lead(s)] == super::passes(s)[0],
        super::actions(s, replies)[super::lead(s) + 1] == super::passes(s)[1],
        super::actions(s, replies)[super::lead(s) + 2] == super::passes(s)[2],
        super::actions(s, replies)[super::lead(s) + 3] == super::passes(s)[3],
{
    let m = super::law_report_follows_both_passes(s, replies, f);
    let lead = super::extraction(s) + super::conversion(s);
    let end = seq![super::comparison(m), ActionView::Finish(f)];
    assert(super::passes(s).len() == 4);
    lemma_middle(lead, super::passes(s), super::checking(s), end);
    m
}

/// The four steps of the two passes.
proof fn lemma_both_passes(s: SettingView)
    ensures
        super::passes(s).len() == 4,
        is_pass(
            s,
            super::passes(s)[0],
            super::netlist_path(s),
            super::library_path(s),
            s.work.base_v,
            s.work.base_json,
            false,
        ),
        super::passes(s)[1] == ActionView::Read(s.work.base_json),
        is_pass(
            s,
            super::passes(s)[2],
            super::netlist_path(s),
            super::library_path(s),
            s.job.out,
            s.work.mo_json,
            true,
        ),
        super::passes(s)[3] == ActionView::Read(s.work.mo_json),
{
    lemma_passes(s, super::netlist_path(s), super::library_path(s));
}

proof fn lemma_middle(
    lead: Seq<ActionView>,
    middle: Seq<ActionView>,
    more: Seq<ActionView>,
    end: Seq<ActionView>,
)
    ensures
        forall|k: int|
            0 <= k < middle.len() ==> (lead + middle + more + end)[lead.len() + k]
                == #[trigger] middle[k],
{
}

proof fn lemma_counted(reply: ReplyView, counts: StatsView, reported: Json)
    requires
        reply is Read,
        tools::emap_stats_spec(reply->Read_0) == Ok::<StatsView, Seq<char>>(counts),
        reporting::gives_counts(reported, counts),
    ensures
        sidecar_in(reply) is Some,
        are_counts_of(reported, sidecar_in(reply)->0),
{
    match reply->Read_0 {
        ReadReplyView::Text(content) => {
            tooling::law_a_pass_is_counted_by_its_sidecar(content, Seq::empty());
        },
        ReadReplyView::CannotRead(why) => {
            tooling::law_a_pass_is_counted_by_its_sidecar(Seq::empty(), why);
        },
    }
}

proof fn lemma_judged(reply: ReplyView, cec: CecView)
    requires
        reply is Ran,
        cec == session::cec_found(tools::cec_spec(tools::decoded(reply->Ran_0))),
    ensures
        says_not_equivalent(reply) <==> cec == CecView::Checked(false),
        says_equivalent(reply) <==> cec == CecView::Checked(true),
        !says_equivalent(reply) && !says_not_equivalent(reply) <==> cec is Unknown,
{
    match reply->Ran_0 {
        RunReplyView::CannotStart(why) => {
            tooling::law_a_check_may_be_impossible(why);
        },
        RunReplyView::Exited(_) => {
            tooling::law_decoding_keeps_the_reply(reply->Ran_0);
            assert(tools::decoded(reply->Ran_0) == RunTextView::Exited(printed_by(reply)));
            tooling::law_the_verdict_is_what_was_printed(printed_by(reply));
        },
    }
}

/// A verdict that is found somewhere in what was printed is the one reported,
/// whatever stands before and behind it: a netlist that is not equivalent ends
/// the session with exit code 1 and a report whose status is an error.
pub proof fn law_a_rejection_ends_in_an_error(
    s: SettingView,
    replies: Seq<ReplyView>,
    f: FinishView,
    before: Seq<char>,
    after: Seq<char>,
) -> (t: Json)
    requires
        super::conversation(s, replies),
        super::reached(s, replies).1 == ActionView::Finish(f),
        f.event is Some,
        s.job.check,
        replies[super::lead(s) + 4] is Ran,
        replies[super::lead(s) + 4]->Ran_0 is Exited,
        printed_by(replies[super::lead(s) + 4]).stdout + printed_by(
            replies[super::lead(s) + 4],
        ).stderr == before + "Networks are NOT equivalent"@ + after,
        !tooling::prints(printed_by(replies[super::lead(s) + 4]), "Networks are equivalent"@),
    ensures
        f.output.code == 1,
        s.job.want_json ==> f.output.stdout == json::pretty_text(t) + seq!['\n'],
        t.at("status"@) == Json::Text("error"@),
        t.at("cec"@).at("equivalent"@) == Json::Bool(false),
{
    let exit = printed_by(replies[super::lead(s) + 4]);
    assert(tooling::parts_at(
        exit.stdout + exit.stderr,
        before,
        "Networks are NOT equivalent"@,
        after,
    ));
    law_a_report_is_what_the_replies_said(s, replies, f)
}

/// A check that decided nothing is reported with the reason: why the program
/// could not be started, or the end of what it printed.
pub proof fn law_an_open_check_says_why(reply: RunReplyView)
    ensures
        reply is CannotStart ==> session::cec_found(tools::cec_spec(tools::decoded(reply)))
            == CecView::Unknown(
            "cannot run abc for CEC: "@ + reply->CannotStart_0 + " (set $VYGES_ABC)"@,
        ),
        ({
            let text = text::lossy_text(reply->Exited_0.stdout) + text::lossy_text(
                reply->Exited_0.stderr,
            );
            reply is Exited && session::cec_found(tools::cec_spec(tools::decoded(reply))) is Unknown
                ==> session::cec_found(tools::cec_spec(tools::decoded(reply))) == CecView::Unknown(
                "abc cec inconclusive: "@ + text::tail_spec(text),
            )
        }),
{
}

/// The files of a working directory lie in it: a longer path to it makes each
/// of their paths longer in the same way.
pub proof fn law_work_files_lie_in_their_directory(outer: Seq<char>, inner: Seq<char>)
    ensures
        WorkView::under(outer + inner).design_aig == outer + WorkView::under(inner).design_aig,
        WorkView::under(outer + inner).tech_genlib == outer + WorkView::under(inner).tech_genlib,
        WorkView::under(outer + inner).base_v == outer + WorkView::under(inner).base_v,
        WorkView::under(outer + inner).base_json == outer + WorkView::under(inner).base_json,
        WorkView::under(outer + inner).mo_json == outer + WorkView::under(inner).mo_json,
        WorkView::under(Seq::empty()).design_aig == "design.aig"@,
        WorkView::under(Seq::empty()).tech_genlib == "tech.genlib"@,
        WorkView::under(Seq::empty()).base_v == "base.v"@,
        WorkView::under(Seq::empty()).base_json == "base.json"@,
        WorkView::under(Seq::empty()).mo_json == "mo.json"@,
{
    assert(Seq::<char>::empty() + "design.aig"@ == "design.aig"@);
    assert(Seq::<char>::empty() + "tech.genlib"@ == "tech.genlib"@);
    assert(Seq::<char>::empty() + "base.v"@ == "base.v"@);
    assert(Seq::<char>::empty() + "base.json"@ == "base.json"@);
    assert(Seq::<char>::empty() + "mo.json"@ == "mo.json"@);
}

/// Two processes have working directories of different names.
pub proof fn law_work_directories_differ(pid: nat, other: nat)
    ensures
        session::work_dir(pid) == session::work_dir(other) ==> pid == other,
        session::work_dir(pid).take("vyges-remap-"@.len() as int) == "vyges-remap-"@,
        session::work_dir(pid).skip("vyges-remap-"@.len() as int) == text::nat_text(pid),
{
    let n = "vyges-remap-"@.len() as int;
    assert(session::work_dir(pid).take(n) == "vyges-remap-"@);
    assert(session::work_dir(pid).skip(n) == text::nat_text(pid));
    assert(session::work_dir(other).skip(n) == text::nat_text(other));
    if session::work_dir(pid) == session::work_dir(other) {
        reading::law_numerals_differ(pid, other);
    }
}

/// Each program is the one that the environment names for it, whatever it
/// names for the others, and goes by its usual name where it names none.
pub proof fn law_each_program_is_named_for_itself(
    emap: Option<Seq<char>>,
    yosys: Option<Seq<char>>,
    abc: Option<Seq<char>>,
)
    ensures
        emap is Some ==> tools::resolved(emap, yosys, abc).emap == emap->0,
        emap is None ==> tools::resolved(emap, yosys, abc).emap == "vyges-emap"@,
        yosys is Some ==> tools::resolved(emap, yosys, abc).yosys == yosys->0,
        yosys is None ==> tools::resolved(emap, yosys, abc).yosys == "yosys"@,
        abc is Some ==> tools::resolved(emap, yosys, abc).abc == abc->0,
        abc is None ==> tools::resolved(emap, yosys, abc).abc == "abc"@,
{
}

}
