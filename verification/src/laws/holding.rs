//! Laws of the views: what a value says is what its fields hold, all of it and
//! nothing else.

use vstd::prelude::*;

use crate::cli::{Command, CommandView};
use crate::job::{CellLibrary, CellLibraryView, Job, Netlist, NetlistView};
use crate::json;
use crate::report::{Cec, CecView, Event, Output, Remap};
use crate::session::{
    Action, ActionView, Counts, Finish, Reply, ReplyView, Session, Setting, Stage, StageView, Work,
};
use crate::stats::{Change, Stats, StatsView};
use crate::tools;
use crate::tools::{
    Exit, ExitText, Invocation, ReadReply, ReadReplyView, RunReply, RunReplyView, RunText,
    RunTextView, Tools,
};

verus! {

/// A job says what its options hold.
pub proof fn law_a_job_says_its_options(
    job: Job,
    netlist: Netlist,
    library: CellLibrary,
    path: String,
)
    ensures
        job@.want_json == job.want_json,
        job@.top == job.top@,
        job@.out == job.out@,
        job@.check == job.check,
        job@.netlist is Some <==> job.netlist is Some,
        job@.library is Some <==> job.library is Some,
        job.netlist == Some(netlist) ==> job@.netlist == Some(netlist@),
        job.library == Some(library) ==> job@.library == Some(library@),
        netlist == Netlist::Aig(path) ==> netlist@ == NetlistView::Aig(path@),
        netlist == Netlist::Verilog(path) ==> netlist@ == NetlistView::Verilog(path@),
        library == CellLibrary::Genlib(path) ==> library@ == CellLibraryView::Genlib(path@),
        library == CellLibrary::Liberty(path) ==> library@ == CellLibraryView::Liberty(path@),
{
}

/// A command says what is printed, or the job.
pub proof fn law_a_command_says_what_to_do(output: Output, job: Job)
    ensures
        Command::Print(output)@ == CommandView::Print(output@),
        Command::Emap(job)@ == CommandView::Emap(job@),
        output@.stdout == output.stdout@,
        output@.stderr == output.stderr@,
        output@.code == output.code,
{
}

/// A call says its program, its arguments in order, and the file that it is to
/// produce.
pub proof fn law_a_call_says_everything(call: Invocation, path: String, i: int, named: Tools)
    ensures
        call@.program == call.program@,
        call@.args.len() == call.args@.len(),
        0 <= i < call.args@.len() ==> call@.args[i] == call.args@[i]@,
        call.produces == Some(path) ==> call@.produces == Some(path@),
        call.produces is None ==> call@.produces is None,
        named@.emap == named.emap@,
        named@.yosys == named.yosys@,
        named@.abc == named.abc@,
        tools::text_in(Some(path)) == Some(path@),
        tools::text_in(None) is None,
{
}

/// A reply of a program says how it ended and what it printed on which stream.
pub proof fn law_a_run_says_how_it_went(exit: Exit, decoded: ExitText, why: String)
    ensures
        RunReply::CannotStart(why)@ == RunReplyView::CannotStart(why@),
        RunReply::Exited(exit)@ == RunReplyView::Exited(exit@),
        exit@.success == exit.success,
        exit@.code == exit.code,
        exit@.stdout == exit.stdout@,
        exit@.stderr == exit.stderr@,
        exit@.produced == exit.produced,
        RunText::CannotStart(why)@ == RunTextView::CannotStart(why@),
        RunText::Exited(decoded)@ == RunTextView::Exited(decoded@),
        decoded@.success == decoded.success,
        decoded@.code == decoded.code,
        decoded@.stdout == decoded.stdout@,
        decoded@.stderr == decoded.stderr@,
        decoded@.produced == decoded.produced,
        ReadReply::CannotRead(why)@ == ReadReplyView::CannotRead(why@),
        ReadReply::Text(why)@ == ReadReplyView::Text(why@),
{
}

/// Counts and changes say the values that they hold.
pub proof fn law_counts_say_their_values(s: Stats, c: Change, pair: Counts, e: String)
    ensures
        s@.gates == json::tree(s.gates),
        s@.area == json::tree(s.area),
        s@.mo == json::tree(s.mo),
        c@.difference == json::tree(c.difference),
        c@.percent == json::tree(c.percent),
        pair@.before == json::tree(pair.before),
        pair@.after == json::tree(pair.after),
        tools::measured(Ok(s)) == Ok::<StatsView, Seq<char>>(s@),
        tools::measured(Err(e)) == Err::<StatsView, Seq<char>>(e@),
        s@.finite() <==> {
            &&& s@.gates.double() is Some && json::is_finite(s@.gates.double()->0)
            &&& s@.area.double() is Some && json::is_finite(s@.area.double()->0)
            &&& s@.mo.double() is Some && json::is_finite(s@.mo.double()->0)
        },
{
}

/// A finished re-mapping says everything that is to be reported of it.
pub proof fn law_a_result_says_everything(m: Remap, why: String, verdict: bool)
    ensures
        m@.top == m.top@,
        m@.aig == m.aig@,
        m@.genlib == m.genlib@,
        m@.out == m.out@,
        m@.base == m.base@,
        m@.mo == m.mo@,
        m@.cells == m.cells@,
        m@.area == m.area@,
        m@.cec == m.cec@,
        Cec::Skipped@ == CecView::Skipped,
        Cec::Checked(verdict)@ == CecView::Checked(verdict),
        Cec::Unknown(why)@ == CecView::Unknown(why@),
{
}

/// An event says what it carries, with its objects in order, and the end of a
/// session what is to be done then.
pub proof fn law_an_end_says_everything(f: Finish, e: Event, i: int)
    ensures
        e@.source == e.source@,
        e@.severity == e.severity,
        e@.message == e.message@,
        e@.code == e.code@,
        e@.objects.len() == e.objects@.len(),
        0 <= i < e.objects@.len() ==> e@.objects[i] == e.objects@[i]@,
        f@.cleanup == f.cleanup,
        f.event == Some(e) ==> f@.event == Some(e@),
        f.event is None ==> f@.event is None,
        f@.output == f.output@,
{
}

/// A session says what it works with, and an action and a reply what they are
/// about.
pub proof fn law_a_session_says_what_it_works_with(
    session: Session,
    setting: Setting,
    work: Work,
    action: Action,
    reply: Reply,
)
    ensures
        session@.setting == session.setting@,
        session@.stage == session.stage@,
        setting@.job == setting.job@,
        setting@.tools == setting.tools@,
        setting@.work == setting.work@,
        work@.design_aig == work.design_aig@,
        work@.tech_genlib == work.tech_genlib@,
        work@.base_v == work.base_v@,
        work@.base_json == work.base_json@,
        work@.mo_json == work.mo_json@,
        action is Run ==> action@ == ActionView::Run(action->Run_0@),
        action is Read ==> action@ == ActionView::Read(action->Read_0@),
        action is Compare ==> action@ == (ActionView::Compare {
            cells: action->cells@,
            area: action->area@,
        }),
        action is Finish ==> action@ == ActionView::Finish(action->Finish_0@),
        reply is Ran ==> reply@ == ReplyView::Ran(reply->Ran_0@),
        reply is Read ==> reply@ == ReplyView::Read(reply->Read_0@),
        reply is Compared ==> reply@ == (ReplyView::Compared {
            cells: reply->cells@,
            area: reply->area@,
        }),
{
}

/// A stage says what has been found out so far.
pub proof fn law_a_stage_says_what_is_known(
    aig: String,
    genlib: String,
    base: Stats,
    mo: Stats,
    cec: Cec,
)
    ensures
        Stage::Extract@ == StageView::Extract,
        (Stage::Convert { aig })@ == (StageView::Convert { aig: aig@ }),
        (Stage::BaseRun { aig, genlib })@ == (StageView::BaseRun { aig: aig@, genlib: genlib@ }),
        (Stage::BaseStats { aig, genlib })@ == (StageView::BaseStats {
            aig: aig@,
            genlib: genlib@,
        }),
        (Stage::MoRun { aig, genlib, base })@ == (StageView::MoRun {
            aig: aig@,
            genlib: genlib@,
            base: base@,
        }),
        (Stage::MoStats { aig, genlib, base })@ == (StageView::MoStats {
            aig: aig@,
            genlib: genlib@,
            base: base@,
        }),
        (Stage::Check { aig, genlib, base, mo })@ == (StageView::Check {
            aig: aig@,
            genlib: genlib@,
            base: base@,
            mo: mo@,
        }),
        (Stage::Compare { aig, genlib, base, mo, cec })@ == (StageView::Compare {
            aig: aig@,
            genlib: genlib@,
            base: base@,
            mo: mo@,
            cec: cec@,
        }),
        Stage::Done@ == StageView::Done,
{
}

}
