//! One re-mapping, as a conversation: the session says what to do next, is
//! told how it went, and at last says what to report.
//!
//! The netlist is extracted and the library converted where need be. Then the
//! mapper runs twice, first as a single-output baseline and then with
//! multi-output cells, and the result is checked against the input.

use serde_json::Value;
use vstd::prelude::*;

use crate::job::{CellLibrary, CellLibraryView, Job, JobView, Netlist, NetlistView};
use crate::json;
use crate::json::Json;
use crate::report;
use crate::report::{Cec, CecView, Event, EventView, Output, OutputView, Remap, RemapView};
use crate::stats::{Change, ChangeView, Stats, StatsView};
use crate::text;
use crate::tools;
use crate::tools::{
    Invocation, InvocationView, ReadReply, ReadReplyView, RunReply, RunReplyView, RunText, Tools,
    ToolsView,
};

verus! {

/// The extracted netlist, in the working directory.
pub const DESIGN_AIG: &'static str = "design.aig";

/// The converted library, in the working directory.
pub const TECH_GENLIB: &'static str = "tech.genlib";

/// The netlist of the baseline, in the working directory.
pub const BASE_V: &'static str = "base.v";

/// The stats sidecar of the baseline, in the working directory.
pub const BASE_JSON: &'static str = "base.json";

/// The stats sidecar of the multi-output pass, in the working directory.
pub const MO_JSON: &'static str = "mo.json";

/// The name of the working directory of a process.
pub open spec fn work_dir(pid: nat) -> Seq<char> {
    "vyges-remap-"@ + text::nat_text(pid)
}

/// The name of the working directory of a process.
pub fn work_dir_name(pid: u32) -> (r: String)
    ensures
        r@ == work_dir(pid as nat),
        r@ == "vyges-remap-"@ + text::nat_text(pid as nat),
{
    "vyges-remap-".to_owned().concat(text::nat_to_text(pid as u64).as_str())
}

/// The paths of the files in the working directory.
pub struct Work {
    pub design_aig: String,
    pub tech_genlib: String,
    pub base_v: String,
    pub base_json: String,
    pub mo_json: String,
}

/// What a [`Work`] names.
pub struct WorkView {
    pub design_aig: Seq<char>,
    pub tech_genlib: Seq<char>,
    pub base_v: Seq<char>,
    pub base_json: Seq<char>,
    pub mo_json: Seq<char>,
}

impl View for Work {
    type V = WorkView;

    open spec fn view(&self) -> WorkView {
        WorkView {
            design_aig: self.design_aig@,
            tech_genlib: self.tech_genlib@,
            base_v: self.base_v@,
            base_json: self.base_json@,
            mo_json: self.mo_json@,
        }
    }
}

impl WorkView {
    /// No two of the files are the same.
    pub open spec fn distinct(self) -> bool {
        &&& self.design_aig != self.tech_genlib
        &&& self.design_aig != self.base_v
        &&& self.design_aig != self.base_json
        &&& self.design_aig != self.mo_json
        &&& self.tech_genlib != self.base_v
        &&& self.tech_genlib != self.base_json
        &&& self.tech_genlib != self.mo_json
        &&& self.base_v != self.base_json
        &&& self.base_v != self.mo_json
        &&& self.base_json != self.mo_json
    }

    /// The files of a working directory. Its path, up to and with the last
    /// separator, is `prefix`.
    pub open spec fn under(prefix: Seq<char>) -> WorkView {
        WorkView {
            design_aig: prefix + DESIGN_AIG@,
            tech_genlib: prefix + TECH_GENLIB@,
            base_v: prefix + BASE_V@,
            base_json: prefix + BASE_JSON@,
            mo_json: prefix + MO_JSON@,
        }
    }
}

impl Work {
    /// The files of a working directory. Its path, up to and with the last
    /// separator, is `prefix`.
    pub fn under(prefix: &str) -> (r: Work)
        ensures
            r@ == WorkView::under(prefix@),
            r@.distinct(),
    {
        proof {
            crate::laws::law_work_files_differ(prefix@);
        }
        Work {
            design_aig: prefix.to_owned().concat(DESIGN_AIG),
            tech_genlib: prefix.to_owned().concat(TECH_GENLIB),
            base_v: prefix.to_owned().concat(BASE_V),
            base_json: prefix.to_owned().concat(BASE_JSON),
            mo_json: prefix.to_owned().concat(MO_JSON),
        }
    }
}

/// What a session works with from beginning to end.
pub struct Setting {
    pub job: Job,
    pub tools: Tools,
    pub work: Work,
}

/// What a [`Setting`] says.
pub struct SettingView {
    pub job: JobView,
    pub tools: ToolsView,
    pub work: WorkView,
}

impl View for Setting {
    type V = SettingView;

    open spec fn view(&self) -> SettingView {
        SettingView { job: self.job@, tools: self.tools@, work: self.work@ }
    }
}

/// What a session waits for, with what it has found out so far.
pub enum Stage {
    /// Yosys extracts the netlist.
    Extract,
    /// ABC converts the library.
    Convert { aig: String },
    /// The mapper makes the baseline.
    BaseRun { aig: String, genlib: String },
    /// The sidecar of the baseline is read.
    BaseStats { aig: String, genlib: String },
    /// The mapper makes the multi-output pass.
    MoRun { aig: String, genlib: String, base: Stats },
    /// The sidecar of the multi-output pass is read.
    MoStats { aig: String, genlib: String, base: Stats },
    /// ABC checks the re-mapped netlist.
    Check { aig: String, genlib: String, base: Stats, mo: Stats },
    /// The counts are compared.
    Compare { aig: String, genlib: String, base: Stats, mo: Stats, cec: Cec },
    /// Nothing is left to do.
    Done,
}

/// What a [`Stage`] says.
pub enum StageView {
    Extract,
    Convert { aig: Seq<char> },
    BaseRun { aig: Seq<char>, genlib: Seq<char> },
    BaseStats { aig: Seq<char>, genlib: Seq<char> },
    MoRun { aig: Seq<char>, genlib: Seq<char>, base: StatsView },
    MoStats { aig: Seq<char>, genlib: Seq<char>, base: StatsView },
    Check { aig: Seq<char>, genlib: Seq<char>, base: StatsView, mo: StatsView },
    Compare { aig: Seq<char>, genlib: Seq<char>, base: StatsView, mo: StatsView, cec: CecView },
    Done,
}

impl View for Stage {
    type V = StageView;

    open spec fn view(&self) -> StageView {
        match *self {
            Stage::Extract => StageView::Extract,
            Stage::Convert { aig } => StageView::Convert { aig: aig@ },
            Stage::BaseRun { aig, genlib } => StageView::BaseRun { aig: aig@, genlib: genlib@ },
            Stage::BaseStats { aig, genlib } => StageView::BaseStats {
                aig: aig@,
                genlib: genlib@,
            },
            Stage::MoRun { aig, genlib, base } => StageView::MoRun {
                aig: aig@,
                genlib: genlib@,
                base: base@,
            },
            Stage::MoStats { aig, genlib, base } => StageView::MoStats {
                aig: aig@,
                genlib: genlib@,
                base: base@,
            },
            Stage::Check { aig, genlib, base, mo } => StageView::Check {
                aig: aig@,
                genlib: genlib@,
                base: base@,
                mo: mo@,
            },
            Stage::Compare { aig, genlib, base, mo, cec } => StageView::Compare {
                aig: aig@,
                genlib: genlib@,
                base: base@,
                mo: mo@,
                cec: cec@,
            },
            Stage::Done => StageView::Done,
        }
    }
}

/// A count before and after.
pub struct Counts {
    pub before: Value,
    pub after: Value,
}

/// What [`Counts`] hold.
#[verifier::ext_equal]
pub struct CountsView {
    pub before: Json,
    pub after: Json,
}

impl View for Counts {
    type V = CountsView;

    open spec fn view(&self) -> CountsView {
        CountsView { before: json::tree(self.before), after: json::tree(self.after) }
    }
}

/// How a session ends: whether the working directory is removed, the event to
/// record, if any, and then what to print and the exit code.
pub struct Finish {
    pub cleanup: bool,
    pub event: Option<Event>,
    pub output: Output,
}

/// What a [`Finish`] says.
pub struct FinishView {
    pub cleanup: bool,
    pub event: Option<EventView>,
    pub output: OutputView,
}

impl View for Finish {
    type V = FinishView;

    open spec fn view(&self) -> FinishView {
        FinishView {
            cleanup: self.cleanup,
            event: match self.event {
                Some(e) => Some(e@),
                None => None,
            },
            output: self.output@,
        }
    }
}

/// What is to be done next.
pub enum Action {
    /// Run a program to its end.
    Run(Invocation),
    /// Read a text file.
    Read(String),
    /// Work out the changes in the numbers of cells and in the area.
    Compare { cells: Counts, area: Counts },
    /// End with this.
    Finish(Finish),
}

/// What an [`Action`] says.
pub enum ActionView {
    Run(InvocationView),
    Read(Seq<char>),
    Compare { cells: CountsView, area: CountsView },
    Finish(FinishView),
}

impl View for Action {
    type V = ActionView;

    open spec fn view(&self) -> ActionView {
        match *self {
            Action::Run(invocation) => ActionView::Run(invocation@),
            Action::Read(path) => ActionView::Read(path@),
            Action::Compare { cells, area } => ActionView::Compare { cells: cells@, area: area@ },
            Action::Finish(finish) => ActionView::Finish(finish@),
        }
    }
}

/// How an action went.
pub enum Reply {
    Ran(RunReply),
    Read(ReadReply),
    Compared { cells: Change, area: Change },
}

/// What a [`Reply`] says.
pub enum ReplyView {
    Ran(RunReplyView),
    Read(ReadReplyView),
    Compared { cells: ChangeView, area: ChangeView },
}

impl View for Reply {
    type V = ReplyView;

    open spec fn view(&self) -> ReplyView {
        match *self {
            Reply::Ran(reply) => ReplyView::Ran(reply@),
            Reply::Read(reply) => ReplyView::Read(reply@),
            Reply::Compared { cells, area } => ReplyView::Compared { cells: cells@, area: area@ },
        }
    }
}

/// A re-mapping under way.
pub struct Session {
    pub setting: Setting,
    pub stage: Stage,
}

/// What a [`Session`] says.
pub struct SessionView {
    pub setting: SettingView,
    pub stage: StageView,
}

impl View for Session {
    type V = SessionView;

    open spec fn view(&self) -> SessionView {
        SessionView { setting: self.setting@, stage: self.stage@ }
    }
}

/// What is said where no netlist is given.
pub open spec fn no_netlist() -> Seq<char> {
    "vyges-remap emap: --aig <a.aig> or --verilog <d.v> (with --top) is required\n"@
}

/// What is said where no library is given.
pub open spec fn no_library() -> Seq<char> {
    "vyges-remap emap: --genlib <g> or --liberty <lib> is required\n"@
}

/// The exit code of a finished re-mapping: a netlist that is not equivalent
/// is a failure, a check that did not decide is none.
pub open spec fn exit_code(cec: CecView) -> int {
    if report::rejected(cec) {
        1
    } else {
        0
    }
}

impl SettingView {
    /// The session goes on to `stage` and asks for `action`.
    pub open spec fn go(self, stage: StageView, action: ActionView) -> (SessionView, ActionView) {
        (SessionView { setting: self, stage }, action)
    }

    /// The extraction of the netlist.
    pub open spec fn extract_action(self, verilog: Seq<char>) -> ActionView {
        ActionView::Run(
            InvocationView {
                program: self.tools.yosys,
                args: seq![
                    "-q"@,
                    "-p"@,
                    tools::verilog_script(verilog, self.job.top, self.work.design_aig),
                ],
                produces: Some(self.work.design_aig),
            },
        )
    }

    /// The conversion of the library.
    pub open spec fn convert_action(self, liberty: Seq<char>) -> ActionView {
        ActionView::Run(
            InvocationView {
                program: self.tools.abc,
                args: seq!["-q"@, tools::liberty_script(liberty, self.work.tech_genlib)],
                produces: Some(self.work.tech_genlib),
            },
        )
    }

    /// A pass of the mapper.
    pub open spec fn map_action(
        self,
        aig: Seq<char>,
        genlib: Seq<char>,
        out: Seq<char>,
        stats_path: Seq<char>,
        multioutput: bool,
    ) -> ActionView {
        ActionView::Run(
            InvocationView {
                program: self.tools.emap,
                args: tools::emap_args_spec(
                    aig,
                    genlib,
                    self.job.top,
                    out,
                    stats_path,
                    multioutput,
                ),
                produces: None,
            },
        )
    }

    /// The single-output baseline, which only its counts are wanted of.
    pub open spec fn base_action(self, aig: Seq<char>, genlib: Seq<char>) -> ActionView {
        self.map_action(aig, genlib, self.work.base_v, self.work.base_json, false)
    }

    /// The multi-output pass, which writes the re-mapped netlist.
    pub open spec fn mo_action(self, aig: Seq<char>, genlib: Seq<char>) -> ActionView {
        self.map_action(aig, genlib, self.job.out, self.work.mo_json, true)
    }

    /// The check of the re-mapped netlist against the input.
    pub open spec fn check_action(self, aig: Seq<char>, genlib: Seq<char>) -> ActionView {
        ActionView::Run(
            InvocationView {
                program: self.tools.abc,
                args: seq!["-q"@, tools::cec_script(genlib, self.job.out, aig)],
                produces: None,
            },
        )
    }

    /// The session fails: it cleans up and tells why.
    pub open spec fn failed(self, msg: Seq<char>) -> (SessionView, ActionView) {
        self.go(
            StageView::Done,
            ActionView::Finish(
                FinishView {
                    cleanup: true,
                    event: None,
                    output: report::fail_spec(self.job.want_json, self.job.top, msg),
                },
            ),
        )
    }

    /// The options do not say what to work on.
    pub open spec fn misused(self, msg: Seq<char>) -> (SessionView, ActionView) {
        self.go(
            StageView::Done,
            ActionView::Finish(
                FinishView {
                    cleanup: false,
                    event: None,
                    output: OutputView { stdout: Seq::empty(), stderr: msg, code: 2 },
                },
            ),
        )
    }

    /// The first step: find the netlist, or have it extracted.
    pub open spec fn begin(self) -> (SessionView, ActionView) {
        match self.job.netlist {
            Some(NetlistView::Aig(aig)) => self.with_netlist(aig),
            Some(NetlistView::Verilog(verilog)) => self.go(
                StageView::Extract,
                self.extract_action(verilog),
            ),
            None => self.misused(no_netlist()),
        }
    }

    /// The netlist is there: find the library, or have it converted.
    pub open spec fn with_netlist(self, aig: Seq<char>) -> (SessionView, ActionView) {
        match self.job.library {
            Some(CellLibraryView::Genlib(genlib)) => self.with_library(aig, genlib),
            Some(CellLibraryView::Liberty(liberty)) => self.go(
                StageView::Convert { aig },
                self.convert_action(liberty),
            ),
            None => self.misused(no_library()),
        }
    }

    /// The library is there: make the baseline.
    pub open spec fn with_library(self, aig: Seq<char>, genlib: Seq<char>) -> (
        SessionView,
        ActionView,
    ) {
        self.go(StageView::BaseRun { aig, genlib }, self.base_action(aig, genlib))
    }

    /// The baseline is counted: make the multi-output pass.
    pub open spec fn with_base(
        self,
        aig: Seq<char>,
        genlib: Seq<char>,
        base: Result<StatsView, Seq<char>>,
    ) -> (SessionView, ActionView) {
        match base {
            Ok(base) => self.go(
                StageView::MoRun { aig, genlib, base },
                self.mo_action(aig, genlib),
            ),
            Err(e) => self.failed(e),
        }
    }

    /// The multi-output pass is counted: check the netlist, if that is asked
    /// for.
    pub open spec fn with_mo(
        self,
        aig: Seq<char>,
        genlib: Seq<char>,
        base: StatsView,
        mo: Result<StatsView, Seq<char>>,
    ) -> (SessionView, ActionView) {
        match mo {
            Ok(mo) => if self.job.check {
                self.go(
                    StageView::Check { aig, genlib, base, mo },
                    self.check_action(aig, genlib),
                )
            } else {
                self.with_cec(aig, genlib, base, mo, CecView::Skipped)
            },
            Err(e) => self.failed(e),
        }
    }

    /// The check is done, whatever it found: compare the counts.
    pub open spec fn with_cec(
        self,
        aig: Seq<char>,
        genlib: Seq<char>,
        base: StatsView,
        mo: StatsView,
        cec: CecView,
    ) -> (SessionView, ActionView) {
        self.go(
            StageView::Compare { aig, genlib, base, mo, cec },
            ActionView::Compare {
                cells: CountsView { before: base.gates, after: mo.gates },
                area: CountsView { before: base.area, after: mo.area },
            },
        )
    }

    /// What a finished re-mapping reports.
    pub open spec fn finish(self, m: RemapView) -> FinishView {
        FinishView {
            cleanup: true,
            event: Some(report::event_spec(report::result_tree(m))),
            output: OutputView {
                stdout: report::emit_spec(self.job.want_json, report::result_tree(m)),
                stderr: Seq::empty(),
                code: exit_code(m.cec),
            },
        }
    }
}

/// The verdict on the check that a reply gives.
pub open spec fn cec_found(verdict: Result<bool, Seq<char>>) -> CecView {
    match verdict {
        Ok(equivalent) => CecView::Checked(equivalent),
        Err(why) => CecView::Unknown(why),
    }
}

impl SessionView {
    /// The reply is one to the action that the session waits for.
    pub open spec fn expects(self, reply: ReplyView) -> bool {
        match self.stage {
            StageView::Extract => reply is Ran,
            StageView::Convert { .. } => reply is Ran,
            StageView::BaseRun { .. } => reply is Ran,
            StageView::BaseStats { .. } => reply is Read,
            StageView::MoRun { .. } => reply is Ran,
            StageView::MoStats { .. } => reply is Read,
            StageView::Check { .. } => reply is Ran,
            StageView::Compare { .. } => reply is Compared,
            StageView::Done => false,
        }
    }

    /// What a session makes of a reply that it expects.
    pub open spec fn next(self, reply: ReplyView) -> (SessionView, ActionView) {
        let s = self.setting;
        match (self.stage, reply) {
            (StageView::Extract, ReplyView::Ran(r)) => match tools::verilog_fault(
                tools::decoded(r),
            ) {
                Some(e) => s.failed("Verilog->AIG: "@ + e),
                None => s.with_netlist(s.work.design_aig),
            },
            (StageView::Convert { aig }, ReplyView::Ran(r)) => match tools::liberty_fault(
                tools::decoded(r),
            ) {
                Some(e) => s.failed("Liberty->genlib: "@ + e),
                None => s.with_library(aig, s.work.tech_genlib),
            },
            (StageView::BaseRun { aig, genlib }, ReplyView::Ran(r)) => match tools::emap_fault(
                s.tools.emap,
                tools::decoded(r),
            ) {
                Some(e) => s.failed(e),
                None => s.go(
                    StageView::BaseStats { aig, genlib },
                    ActionView::Read(s.work.base_json),
                ),
            },
            (StageView::BaseStats { aig, genlib }, ReplyView::Read(r)) => s.with_base(
                aig,
                genlib,
                tools::emap_stats_spec(r),
            ),
            (StageView::MoRun { aig, genlib, base }, ReplyView::Ran(r)) => match tools::emap_fault(
                s.tools.emap,
                tools::decoded(r),
            ) {
                Some(e) => s.failed(e),
                None => s.go(
                    StageView::MoStats { aig, genlib, base },
                    ActionView::Read(s.work.mo_json),
                ),
            },
            (StageView::MoStats { aig, genlib, base }, ReplyView::Read(r)) => s.with_mo(
                aig,
                genlib,
                base,
                tools::emap_stats_spec(r),
            ),
            (StageView::Check { aig, genlib, base, mo }, ReplyView::Ran(r)) => s.with_cec(
                aig,
                genlib,
                base,
                mo,
                cec_found(tools::cec_spec(tools::decoded(r))),
            ),
            (
                StageView::Compare { aig, genlib, base, mo, cec },
                ReplyView::Compared { cells, area },
            ) => s.go(
                StageView::Done,
                ActionView::Finish(
                    s.finish(
                        RemapView {
                            top: s.job.top,
                            aig,
                            genlib,
                            out: s.job.out,
                            base,
                            mo,
                            cells,
                            area,
                            cec,
                        },
                    ),
                ),
            ),
            _ => arbitrary(),
        }
    }
}

impl Setting {
    fn go(self, stage: Stage, action: Action) -> (r: (Session, Action))
        ensures
            (r.0@, r.1@) == self@.go(stage@, action@),
    {
        (Session { setting: self, stage }, action)
    }

    fn failed(self, msg: &str) -> (r: (Session, Action))
        ensures
            (r.0@, r.1@) == self@.failed(msg@),
    {
        let output: Output = report::fail(self.job.want_json, self.job.top.as_str(), msg);
        self.go(Stage::Done, Action::Finish(Finish { cleanup: true, event: None, output }))
    }

    fn misused(self, msg: &str) -> (r: (Session, Action))
        ensures
            (r.0@, r.1@) == self@.misused(msg@),
    {
        let output: Output = Output { stdout: String::new(), stderr: msg.to_owned(), code: 2 };
        self.go(Stage::Done, Action::Finish(Finish { cleanup: false, event: None, output }))
    }

    fn map_run(
        &self,
        aig: &str,
        genlib: &str,
        out: &str,
        stats_path: &str,
        multioutput: bool,
    ) -> (r: Action)
        ensures
            r@ == self@.map_action(aig@, genlib@, out@, stats_path@, multioutput),
    {
        Action::Run(
            Invocation {
                program: self.tools.emap.clone(),
                args: tools::emap_args(
                    aig,
                    genlib,
                    self.job.top.as_str(),
                    out,
                    stats_path,
                    multioutput,
                ),
                produces: None,
            },
        )
    }

    /// Begins a session. A netlist in AIGER form is taken as it is; from
    /// Verilog it is extracted first.
    pub fn begin(self) -> (r: (Session, Action))
        ensures
            (r.0@, r.1@) == self@.begin(),
    {
        let extraction: Option<Invocation> = match &self.job.netlist {
            Some(Netlist::Aig(path)) => {
                let aig: String = path.clone();
                return self.with_netlist(aig);
            },
            Some(Netlist::Verilog(path)) => Some(
                Invocation {
                    program: self.tools.yosys.clone(),
                    args: tools::verilog_args(
                        path.as_str(),
                        self.job.top.as_str(),
                        self.work.design_aig.as_str(),
                    ),
                    produces: Some(self.work.design_aig.clone()),
                },
            ),
            None => None,
        };
        match extraction {
            Some(invocation) => self.go(Stage::Extract, Action::Run(invocation)),
            None => self.misused(
                "vyges-remap emap: --aig <a.aig> or --verilog <d.v> (with --top) is required\n",
            ),
        }
    }

    /// Goes on with the netlist `aig`. A genlib is taken as it is; a Liberty
    /// file is converted first.
    pub fn with_netlist(self, aig: String) -> (r: (Session, Action))
        ensures
            (r.0@, r.1@) == self@.with_netlist(aig@),
    {
        let conversion: Option<Invocation> = match &self.job.library {
            Some(CellLibrary::Genlib(path)) => {
                let genlib: String = path.clone();
                return self.with_library(aig, genlib);
            },
            Some(CellLibrary::Liberty(path)) => Some(
                Invocation {
                    program: self.tools.abc.clone(),
                    args: tools::liberty_args(path.as_str(), self.work.tech_genlib.as_str()),
                    produces: Some(self.work.tech_genlib.clone()),
                },
            ),
            None => None,
        };
        match conversion {
            Some(invocation) => self.go(Stage::Convert { aig }, Action::Run(invocation)),
            None => self.misused(
                "vyges-remap emap: --genlib <g> or --liberty <lib> is required\n",
            ),
        }
    }

    /// Goes on with the netlist and the library: the baseline is next.
    pub fn with_library(self, aig: String, genlib: String) -> (r: (Session, Action))
        ensures
            (r.0@, r.1@) == self@.with_library(aig@, genlib@),
    {
        let action: Action = self.map_run(
            aig.as_str(),
            genlib.as_str(),
            self.work.base_v.as_str(),
            self.work.base_json.as_str(),
            false,
        );
        self.go(Stage::BaseRun { aig, genlib }, action)
    }

    /// Goes on with the counts of the baseline: the multi-output pass is next.
    pub fn with_base(self, aig: String, genlib: String, base: Result<Stats, String>) -> (r: (
        Session,
        Action,
    ))
        ensures
            (r.0@, r.1@) == self@.with_base(aig@, genlib@, tools::measured(base)),
    {
        match base {
            Ok(base) => {
                let action: Action = self.map_run(
                    aig.as_str(),
                    genlib.as_str(),
                    self.job.out.as_str(),
                    self.work.mo_json.as_str(),
                    true,
                );
                self.go(Stage::MoRun { aig, genlib, base }, action)
            },
            Err(e) => self.failed(e.as_str()),
        }
    }

    /// Goes on with the counts of the multi-output pass: the check is next,
    /// where it is asked for.
    pub fn with_mo(
        self,
        aig: String,
        genlib: String,
        base: Stats,
        mo: Result<Stats, String>,
    ) -> (r: (Session, Action))
        ensures
            (r.0@, r.1@) == self@.with_mo(aig@, genlib@, base@, tools::measured(mo)),
    {
        match mo {
            Ok(mo) => if self.job.check {
                let action: Action = Action::Run(
                    Invocation {
                        program: self.tools.abc.clone(),
                        args: tools::cec_args(
                            genlib.as_str(),
                            self.job.out.as_str(),
                            aig.as_str(),
                        ),
                        produces: None,
                    },
                );
                self.go(Stage::Check { aig, genlib, base, mo }, action)
            } else {
                self.with_cec(aig, genlib, base, mo, Cec::Skipped)
            },
            Err(e) => self.failed(e.as_str()),
        }
    }

    /// Goes on with what the check found: the counts are compared next.
    pub fn with_cec(
        self,
        aig: String,
        genlib: String,
        base: Stats,
        mo: Stats,
        cec: Cec,
    ) -> (r: (Session, Action))
        ensures
            (r.0@, r.1@) == self@.with_cec(aig@, genlib@, base@, mo@, cec@),
    {
        let action: Action = Action::Compare {
            cells: Counts { before: json::copy(&base.gates), after: json::copy(&mo.gates) },
            area: Counts { before: json::copy(&base.area), after: json::copy(&mo.area) },
        };
        self.go(Stage::Compare { aig, genlib, base, mo, cec }, action)
    }

    /// How a finished re-mapping ends.
    pub fn finish(&self, m: Remap) -> (r: Finish)
        ensures
            r@ == self@.finish(m@),
    {
        let code: i32 = if report::is_rejected(&m.cec) {
            1
        } else {
            0
        };
        let result: Value = report::result_json(m);
        let event: Event = report::remap_event(&result);
        let stdout: String = report::emit(self.job.want_json, &result);
        Finish {
            cleanup: true,
            event: Some(event),
            output: Output { stdout, stderr: String::new(), code },
        }
    }
}

/// What the check found, as reported.
fn cec_from(verdict: Result<bool, String>) -> (r: Cec)
    ensures
        match verdict {
            Ok(equivalent) => r@ == CecView::Checked(equivalent),
            Err(why) => r@ == CecView::Unknown(why@),
        },
{
    match verdict {
        Ok(equivalent) => Cec::Checked(equivalent),
        Err(why) => Cec::Unknown(why),
    }
}

impl Session {
    /// Whether a reply is one to the action that the session waits for.
    pub fn expects(&self, reply: &Reply) -> (r: bool)
        ensures
            r == self@.expects(reply@),
    {
        match (&self.stage, reply) {
            (Stage::Extract, Reply::Ran(_)) => true,
            (Stage::Convert { .. }, Reply::Ran(_)) => true,
            (Stage::BaseRun { .. }, Reply::Ran(_)) => true,
            (Stage::BaseStats { .. }, Reply::Read(_)) => true,
            (Stage::MoRun { .. }, Reply::Ran(_)) => true,
            (Stage::MoStats { .. }, Reply::Read(_)) => true,
            (Stage::Check { .. }, Reply::Ran(_)) => true,
            (Stage::Compare { .. }, Reply::Compared { .. }) => true,
            _ => false,
        }
    }

    /// Goes on with the reply to the last action.
    pub fn step(self, reply: Reply) -> (r: (Session, Action))
        requires
            self@.expects(reply@),
        ensures
            (r.0@, r.1@) == self@.next(reply@),
    {
        let s: Setting = self.setting;
        match (self.stage, reply) {
            (Stage::Extract, Reply::Ran(raw)) => {
                let ran: RunText = tools::decode_reply(raw);
                match tools::verilog_exit(&ran) {
                    Ok(_) => {
                        let aig: String = s.work.design_aig.clone();
                        s.with_netlist(aig)
                    },
                    Err(e) => s.failed("Verilog->AIG: ".to_owned().concat(e.as_str()).as_str()),
                }
            },
            (Stage::Convert { aig }, Reply::Ran(raw)) => {
                let ran: RunText = tools::decode_reply(raw);
                match tools::liberty_exit(&ran) {
                    Ok(_) => {
                        let genlib: String = s.work.tech_genlib.clone();
                        s.with_library(aig, genlib)
                    },
                    Err(e) => s.failed("Liberty->genlib: ".to_owned().concat(e.as_str()).as_str()),
                }
            },
            (Stage::BaseRun { aig, genlib }, Reply::Ran(raw)) => {
                let ran: RunText = tools::decode_reply(raw);
                match tools::emap_exit(s.tools.emap.as_str(), &ran) {
                    Ok(_) => {
                        let path: String = s.work.base_json.clone();
                        s.go(Stage::BaseStats { aig, genlib }, Action::Read(path))
                    },
                    Err(e) => s.failed(e.as_str()),
                }
            },
            (Stage::BaseStats { aig, genlib }, Reply::Read(sidecar)) => {
                s.with_base(aig, genlib, tools::emap_stats(&sidecar))
            },
            (Stage::MoRun { aig, genlib, base }, Reply::Ran(raw)) => {
                let ran: RunText = tools::decode_reply(raw);
                match tools::emap_exit(s.tools.emap.as_str(), &ran) {
                    Ok(_) => {
                        let path: String = s.work.mo_json.clone();
                        s.go(Stage::MoStats { aig, genlib, base }, Action::Read(path))
                    },
                    Err(e) => s.failed(e.as_str()),
                }
            },
            (Stage::MoStats { aig, genlib, base }, Reply::Read(sidecar)) => {
                s.with_mo(aig, genlib, base, tools::emap_stats(&sidecar))
            },
            (Stage::Check { aig, genlib, base, mo }, Reply::Ran(raw)) => {
                let ran: RunText = tools::decode_reply(raw);
                let cec: Cec = cec_from(tools::cec_verdict(&ran));
                s.with_cec(aig, genlib, base, mo, cec)
            },
            (Stage::Compare { aig, genlib, base, mo, cec }, Reply::Compared { cells, area }) => {
                let m: Remap = Remap {
                    top: s.job.top.clone(),
                    aig,
                    genlib,
                    out: s.job.out.clone(),
                    base,
                    mo,
                    cells,
                    area,
                    cec,
                };
                let finish: Finish = s.finish(m);
                s.go(Stage::Done, Action::Finish(finish))
            },
            _ => vstd::pervasive::unreached(),
        }
    }
}

}
