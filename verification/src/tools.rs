//! The tools that a re-mapping calls: how each is invoked, and what its reply
//! means.

use vstd::prelude::*;

use crate::job;
use crate::stats;
use crate::stats::{Stats, StatsView};
use crate::text;

verus! {

/// A program to run with its arguments, and the file that it is to produce,
/// where the caller asks for one.
pub struct Invocation {
    pub program: String,
    pub args: Vec<String>,
    pub produces: Option<String>,
}

/// What an [`Invocation`] says.
#[verifier::ext_equal]
pub struct InvocationView {
    pub program: Seq<char>,
    pub args: Seq<Seq<char>>,
    pub produces: Option<Seq<char>>,
}

impl View for Invocation {
    type V = InvocationView;

    open spec fn view(&self) -> InvocationView {
        InvocationView {
            program: self.program@,
            args: job::words(self.args@),
            produces: match self.produces {
                Some(path) => Some(path@),
                None => None,
            },
        }
    }
}

/// How a run came out.
pub enum RunReply {
    /// The program could not be started; the text says why.
    CannotStart(String),
    /// The program ended.
    Exited(Exit),
}

/// How a program ended: its status, what it printed, and whether the file
/// that it was to produce is there.
pub struct Exit {
    pub success: bool,
    pub code: Option<i32>,
    pub stdout: Vec<u8>,
    pub stderr: Vec<u8>,
    pub produced: bool,
}

/// What a [`RunReply`] says.
pub enum RunReplyView {
    CannotStart(Seq<char>),
    Exited(ExitView),
}

/// What an [`Exit`] says.
pub struct ExitView {
    pub success: bool,
    pub code: Option<i32>,
    pub stdout: Seq<u8>,
    pub stderr: Seq<u8>,
    pub produced: bool,
}

impl View for Exit {
    type V = ExitView;

    open spec fn view(&self) -> ExitView {
        ExitView {
            success: self.success,
            code: self.code,
            stdout: self.stdout@,
            stderr: self.stderr@,
            produced: self.produced,
        }
    }
}

impl View for RunReply {
    type V = RunReplyView;

    open spec fn view(&self) -> RunReplyView {
        match *self {
            RunReply::CannotStart(why) => RunReplyView::CannotStart(why@),
            RunReply::Exited(exit) => RunReplyView::Exited(exit@),
        }
    }
}

/// How a run came out, with what the program printed as text.
pub enum RunText {
    CannotStart(String),
    Exited(ExitText),
}

/// How a program ended, with what it printed as text.
pub struct ExitText {
    pub success: bool,
    pub code: Option<i32>,
    pub stdout: String,
    pub stderr: String,
    pub produced: bool,
}

/// What a [`RunText`] says.
pub enum RunTextView {
    CannotStart(Seq<char>),
    Exited(ExitTextView),
}

/// What an [`ExitText`] says.
pub struct ExitTextView {
    pub success: bool,
    pub code: Option<i32>,
    pub stdout: Seq<char>,
    pub stderr: Seq<char>,
    pub produced: bool,
}

impl View for ExitText {
    type V = ExitTextView;

    open spec fn view(&self) -> ExitTextView {
        ExitTextView {
            success: self.success,
            code: self.code,
            stdout: self.stdout@,
            stderr: self.stderr@,
            produced: self.produced,
        }
    }
}

impl View for RunText {
    type V = RunTextView;

    open spec fn view(&self) -> RunTextView {
        match *self {
            RunText::CannotStart(why) => RunTextView::CannotStart(why@),
            RunText::Exited(exit) => RunTextView::Exited(exit@),
        }
    }
}

/// A reply with both streams decoded.
pub open spec fn decoded(reply: RunReplyView) -> RunTextView {
    match reply {
        RunReplyView::CannotStart(why) => RunTextView::CannotStart(why),
        RunReplyView::Exited(exit) => RunTextView::Exited(
            ExitTextView {
                success: exit.success,
                code: exit.code,
                stdout: text::lossy_text(exit.stdout),
                stderr: text::lossy_text(exit.stderr),
                produced: exit.produced,
            },
        ),
    }
}

/// Decodes what a program printed.
pub fn decode_reply(reply: RunReply) -> (r: RunText)
    ensures
        r@ == decoded(reply@),
{
    match reply {
        RunReply::CannotStart(why) => RunText::CannotStart(why),
        RunReply::Exited(exit) => RunText::Exited(
            ExitText {
                success: exit.success,
                code: exit.code,
                stdout: text::from_lossy(exit.stdout.as_slice()),
                stderr: text::from_lossy(exit.stderr.as_slice()),
                produced: exit.produced,
            },
        ),
    }
}

/// The programs that are called.
pub struct Tools {
    pub emap: String,
    pub yosys: String,
    pub abc: String,
}

/// The names of the programs that are called.
pub struct ToolsView {
    pub emap: Seq<char>,
    pub yosys: Seq<char>,
    pub abc: Seq<char>,
}

impl View for Tools {
    type V = ToolsView;

    open spec fn view(&self) -> ToolsView {
        ToolsView { emap: self.emap@, yosys: self.yosys@, abc: self.abc@ }
    }
}

/// The text in an optional string.
pub open spec fn text_in(s: Option<String>) -> Option<Seq<char>> {
    match s {
        Some(t) => Some(t@),
        None => None,
    }
}

fn named_or(found: Option<String>, default: &str) -> (r: String)
    ensures
        r@ == job::or_default(text_in(found), default@),
{
    match found {
        Some(name) => name,
        None => default.to_owned(),
    }
}

/// The programs to call, given what the environment says of each.
pub open spec fn resolved(
    emap: Option<Seq<char>>,
    yosys: Option<Seq<char>>,
    abc: Option<Seq<char>>,
) -> ToolsView {
    ToolsView {
        emap: job::or_default(emap, "vyges-emap"@),
        yosys: job::or_default(yosys, "yosys"@),
        abc: job::or_default(abc, "abc"@),
    }
}

/// The programs to call, given what the environment says of each. A program
/// that it does not name goes by its usual name.
pub fn resolve_tools(emap: Option<String>, yosys: Option<String>, abc: Option<String>) -> (r: Tools)
    ensures
        r@ == resolved(text_in(emap), text_in(yosys), text_in(abc)),
        r@ == (ToolsView {
            emap: job::or_default(text_in(emap), "vyges-emap"@),
            yosys: job::or_default(text_in(yosys), "yosys"@),
            abc: job::or_default(text_in(abc), "abc"@),
        }),
{
    Tools {
        emap: named_or(emap, "vyges-emap"),
        yosys: named_or(yosys, "yosys"),
        abc: named_or(abc, "abc"),
    }
}

/// One pass of the mapper. The module keeps its name where it has one, since
/// AIGER carries none.
pub open spec fn emap_args_spec(
    aig: Seq<char>,
    genlib: Seq<char>,
    module: Seq<char>,
    out: Seq<char>,
    stats_path: Seq<char>,
    multioutput: bool,
) -> Seq<Seq<char>> {
    seq!["--aig"@, aig, "--genlib"@, genlib, "-o"@, out, "--stats"@, stats_path] + (if module.len()
        > 0 {
        seq!["--module"@, module]
    } else {
        Seq::empty()
    }) + (if multioutput {
        seq!["--multioutput"@]
    } else {
        Seq::empty()
    })
}

/// The arguments of one pass of the mapper.
pub fn emap_args(
    aig: &str,
    genlib: &str,
    module: &str,
    out: &str,
    stats_path: &str,
    multioutput: bool,
) -> (r: Vec<String>)
    ensures
        job::words(r@) == emap_args_spec(aig@, genlib@, module@, out@, stats_path@, multioutput),
{
    let mut args: Vec<String> = vec![
        "--aig".to_owned(),
        aig.to_owned(),
        "--genlib".to_owned(),
        genlib.to_owned(),
        "-o".to_owned(),
        out.to_owned(),
        "--stats".to_owned(),
        stats_path.to_owned(),
    ];
    if !module.is_empty() {
        args.push("--module".to_owned());
        args.push(module.to_owned());
    }
    if multioutput {
        args.push("--multioutput".to_owned());
    }
    args
}

/// What is wrong with a pass of the mapper, if anything.
pub open spec fn emap_fault(emap: Seq<char>, reply: RunTextView) -> Option<Seq<char>> {
    match reply {
        RunTextView::CannotStart(why) => Some(
            "cannot run '"@ + emap + "': "@ + why
                + " (set $VYGES_EMAP or install vyges-emap)"@,
        ),
        RunTextView::Exited(exit) => if exit.success {
            None
        } else {
            let code = match exit.code {
                Some(code) => code as int,
                None => -1,
            };
            Some(
                "vyges-emap exited "@ + text::int_text(code) + ": "@ + text::tail_spec(exit.stderr),
            )
        },
    }
}

/// Checks a pass of the mapper.
pub fn emap_exit(emap: &str, reply: &RunText) -> (r: Result<(), String>)
    ensures
        match r {
            Ok(_) => emap_fault(emap@, reply@) is None,
            Err(e) => emap_fault(emap@, reply@) == Some(e@),
        },
{
    match reply {
        RunText::CannotStart(why) => Err(
            "cannot run '".to_owned().concat(emap).concat("': ").concat(why.as_str()).concat(
                " (set $VYGES_EMAP or install vyges-emap)",
            ),
        ),
        RunText::Exited(exit) => if exit.success {
            Ok(())
        } else {
            let code: i32 = match exit.code {
                Some(c) => c,
                None => -1,
            };
            Err(
                "vyges-emap exited ".to_owned().concat(text::int_to_text(code).as_str()).concat(
                    ": ",
                ).concat(text::tail(exit.stderr.as_str()).as_str()),
            )
        },
    }
}

/// What reading a file gave: its text, or why it could not be read.
pub enum ReadReply {
    CannotRead(String),
    Text(String),
}

/// What a [`ReadReply`] says.
pub enum ReadReplyView {
    CannotRead(Seq<char>),
    Text(Seq<char>),
}

impl View for ReadReply {
    type V = ReadReplyView;

    open spec fn view(&self) -> ReadReplyView {
        match *self {
            ReadReply::CannotRead(why) => ReadReplyView::CannotRead(why@),
            ReadReply::Text(s) => ReadReplyView::Text(s@),
        }
    }
}

/// What a result holds: counts, or the text of an error.
pub open spec fn measured(r: Result<Stats, String>) -> Result<StatsView, Seq<char>> {
    match r {
        Ok(s) => Ok(s@),
        Err(e) => Err(e@),
    }
}

/// The counts that a pass of the mapper left behind.
pub open spec fn emap_stats_spec(sidecar: ReadReplyView) -> Result<StatsView, Seq<char>> {
    match sidecar {
        ReadReplyView::CannotRead(why) => Err("no stats from vyges-emap: "@ + why),
        ReadReplyView::Text(s) => match stats::parsed_stats(s) {
            Some(counts) => Ok(counts),
            None => Err("vyges-emap stats unparsable"@),
        },
    }
}

/// Reads the counts that a pass of the mapper left behind.
pub fn emap_stats(sidecar: &ReadReply) -> (r: Result<Stats, String>)
    ensures
        measured(r) == emap_stats_spec(sidecar@),
        r matches Ok(s) ==> s@.finite(),
{
    match sidecar {
        ReadReply::CannotRead(why) => Err(
            "no stats from vyges-emap: ".to_owned().concat(why.as_str()),
        ),
        ReadReply::Text(s) => match stats::parse_stats(s.as_str()) {
            Some(counts) => Ok(counts),
            None => Err("vyges-emap stats unparsable".to_owned()),
        },
    }
}

/// The script with which ABC turns a Liberty file into a genlib.
pub open spec fn liberty_script(liberty: Seq<char>, out_genlib: Seq<char>) -> Seq<char> {
    "read_liberty "@ + liberty + "; write_genlib "@ + out_genlib
}

/// The arguments with which ABC turns a Liberty file into a genlib.
/// Multi-output cells are derived from single-output gates, so the Liberty
/// has to carry those.
pub fn liberty_args(liberty: &str, out_genlib: &str) -> (r: Vec<String>)
    ensures
        job::words(r@) == seq!["-q"@, liberty_script(liberty@, out_genlib@)],
{
    vec![
        "-q".to_owned(),
        "read_liberty ".to_owned().concat(liberty).concat("; write_genlib ").concat(out_genlib),
    ]
}

/// What is wrong with a conversion to genlib, if anything.
pub open spec fn liberty_fault(reply: RunTextView) -> Option<Seq<char>> {
    match reply {
        RunTextView::CannotStart(why) => Some(
            "cannot run abc: "@ + why + " (set $VYGES_ABC or install abc)"@,
        ),
        RunTextView::Exited(exit) => if exit.success && exit.produced {
            None
        } else {
            Some("abc Liberty->genlib failed: "@ + text::tail_spec(exit.stderr))
        },
    }
}

/// Checks a conversion of a Liberty file to a genlib.
pub fn liberty_exit(reply: &RunText) -> (r: Result<(), String>)
    ensures
        match r {
            Ok(_) => liberty_fault(reply@) is None,
            Err(e) => liberty_fault(reply@) == Some(e@),
        },
{
    match reply {
        RunText::CannotStart(why) => Err(
            "cannot run abc: ".to_owned().concat(why.as_str()).concat(
                " (set $VYGES_ABC or install abc)",
            ),
        ),
        RunText::Exited(exit) => if exit.success && exit.produced {
            Ok(())
        } else {
            Err(
                "abc Liberty->genlib failed: ".to_owned().concat(
                    text::tail(exit.stderr.as_str()).as_str(),
                ),
            )
        },
    }
}

/// The script with which Yosys extracts an AIG: elaborate, flatten, expand
/// the operators to gates, then map to AND gates and inverters.
pub open spec fn verilog_script(verilog: Seq<char>, top: Seq<char>, out_aig: Seq<char>) -> Seq<
    char,
> {
    "read_verilog "@ + verilog + "; hierarchy -top "@ + top
        + " -check; proc; flatten; techmap; opt -purge; aigmap; write_aiger -symbols "@ + out_aig
}

/// The arguments with which Yosys turns Verilog into an AIGER netlist.
pub fn verilog_args(verilog: &str, top: &str, out_aig: &str) -> (r: Vec<String>)
    ensures
        job::words(r@) == seq!["-q"@, "-p"@, verilog_script(verilog@, top@, out_aig@)],
{
    vec![
        "-q".to_owned(),
        "-p".to_owned(),
        "read_verilog ".to_owned().concat(verilog).concat("; hierarchy -top ").concat(top).concat(
            " -check; proc; flatten; techmap; opt -purge; aigmap; write_aiger -symbols ",
        ).concat(out_aig),
    ]
}

/// What is wrong with an extraction of an AIG, if anything.
pub open spec fn verilog_fault(reply: RunTextView) -> Option<Seq<char>> {
    match reply {
        RunTextView::CannotStart(why) => Some(
            "cannot run yosys: "@ + why + " (set $VYGES_YOSYS or install yosys)"@,
        ),
        RunTextView::Exited(exit) => if exit.success && exit.produced {
            None
        } else {
            Some("yosys Verilog->AIG failed: "@ + text::tail_spec(exit.stderr))
        },
    }
}

/// Checks an extraction of an AIG.
pub fn verilog_exit(reply: &RunText) -> (r: Result<(), String>)
    ensures
        match r {
            Ok(_) => verilog_fault(reply@) is None,
            Err(e) => verilog_fault(reply@) == Some(e@),
        },
{
    match reply {
        RunText::CannotStart(why) => Err(
            "cannot run yosys: ".to_owned().concat(why.as_str()).concat(
                " (set $VYGES_YOSYS or install yosys)",
            ),
        ),
        RunText::Exited(exit) => if exit.success && exit.produced {
            Ok(())
        } else {
            Err(
                "yosys Verilog->AIG failed: ".to_owned().concat(
                    text::tail(exit.stderr.as_str()).as_str(),
                ),
            )
        },
    }
}

/// The script with which ABC checks a mapped netlist against the logic that
/// it was made from.
pub open spec fn cec_script(genlib: Seq<char>, mapped_v: Seq<char>, input_aig: Seq<char>) -> Seq<
    char,
> {
    "read_genlib "@ + genlib + "; read -m "@ + mapped_v + "; cec -n "@ + input_aig
}

/// The arguments of an equivalence check.
pub fn cec_args(genlib: &str, mapped_v: &str, input_aig: &str) -> (r: Vec<String>)
    ensures
        job::words(r@) == seq!["-q"@, cec_script(genlib@, mapped_v@, input_aig@)],
{
    vec![
        "-q".to_owned(),
        "read_genlib ".to_owned().concat(genlib).concat("; read -m ").concat(mapped_v).concat(
            "; cec -n ",
        ).concat(input_aig),
    ]
}

/// What an equivalence check found: whether the netlists are equivalent, or
/// why that is not known. The exit status does not matter, only what was
/// printed on both streams.
pub open spec fn cec_spec(reply: RunTextView) -> Result<bool, Seq<char>> {
    match reply {
        RunTextView::CannotStart(why) => Err(
            "cannot run abc for CEC: "@ + why + " (set $VYGES_ABC)"@,
        ),
        RunTextView::Exited(exit) => {
            let printed = exit.stdout + exit.stderr;
            if text::has_word(printed, "Networks are equivalent"@) {
                Ok(true)
            } else if text::has_word(printed, "Networks are NOT equivalent"@) {
                Ok(false)
            } else {
                Err("abc cec inconclusive: "@ + text::tail_spec(printed))
            }
        },
    }
}

/// Reads the verdict of an equivalence check.
pub fn cec_verdict(reply: &RunText) -> (r: Result<bool, String>)
    ensures
        match r {
            Ok(equivalent) => cec_spec(reply@) == Ok::<bool, Seq<char>>(equivalent),
            Err(e) => cec_spec(reply@) == Err::<bool, Seq<char>>(e@),
        },
{
    match reply {
        RunText::CannotStart(why) => Err(
            "cannot run abc for CEC: ".to_owned().concat(why.as_str()).concat(" (set $VYGES_ABC)"),
        ),
        RunText::Exited(exit) => {
            let printed: String = exit.stdout.clone().concat(exit.stderr.as_str());
            if text::contains(printed.as_str(), "Networks are equivalent") {
                Ok(true)
            } else if text::contains(printed.as_str(), "Networks are NOT equivalent") {
                Ok(false)
            } else {
                Err(
                    "abc cec inconclusive: ".to_owned().concat(
                        text::tail(printed.as_str()).as_str(),
                    ),
                )
            }
        },
    }
}

}
