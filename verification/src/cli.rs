//! The command line: which command is given, and what those without a
//! session print.

use vstd::prelude::*;

use crate::contract;
use crate::job;
use crate::job::{Job, JobView};
use crate::json;
use crate::report::{Output, OutputView};

verus! {

/// What `--help` prints.
pub const USAGE: &'static str = "vyges-remap — file-level multi-output technology re-mapping (mockturtle emap)

usage:
  vyges-remap emap (--verilog <d.v> --top T | --aig <a.aig>) (--genlib <g> | --liberty <lib>) [-o out.v] [--no-cec] [--json]
  vyges-remap --describe        structured tool contract (for `vyges mcp`)
  vyges-remap --version | --help

Extracts an AIG (Yosys, from --verilog) or takes one (--aig), then runs the
vyges-emap driver twice (single-output baseline + multi-output) and reports the
before/after cell/area delta. Tools resolve via $VYGES_EMAP / $VYGES_YOSYS / $VYGES_ABC.
";

/// What a command line asks for.
pub enum Command {
    /// Nothing but this output.
    Print(Output),
    /// A re-mapping.
    Emap(Job),
}

/// What a [`Command`] says.
pub enum CommandView {
    Print(OutputView),
    Emap(JobView),
}

impl View for Command {
    type V = CommandView;

    open spec fn view(&self) -> CommandView {
        match *self {
            Command::Print(output) => CommandView::Print(output@),
            Command::Emap(job) => CommandView::Emap(job@),
        }
    }
}

/// Something printed on standard output, with success.
pub open spec fn printed(stdout: Seq<char>) -> CommandView {
    CommandView::Print(OutputView { stdout, stderr: Seq::empty(), code: 0 })
}

/// What the arguments ask for. The first one is the command; without any, the
/// usage is printed.
pub open spec fn run_spec(args: Seq<Seq<char>>, version: Seq<char>) -> CommandView {
    if args.len() == 0 || args[0] == "-h"@ || args[0] == "--help"@ {
        printed(USAGE@)
    } else if args[0] == "--describe"@ {
        printed(json::pretty_text(contract::describe_tree()) + "\n"@)
    } else if args[0] == "-V"@ || args[0] == "--version"@ {
        printed("vyges-remap "@ + version + "\n"@)
    } else if args[0] == "emap"@ {
        CommandView::Emap(job::job_spec(args.skip(1)))
    } else {
        CommandView::Print(
            OutputView {
                stdout: Seq::empty(),
                stderr: "vyges-remap: unknown command '"@ + args[0] + "' (try --help)\n"@,
                code: 2,
            },
        )
    }
}

fn is(arg: &String, name: &str) -> (r: bool)
    ensures
        r == (arg@ == name@),
{
    *arg == name.to_owned()
}

fn print(stdout: String) -> (r: Command)
    ensures
        r@ == printed(stdout@),
{
    Command::Print(Output { stdout, stderr: String::new(), code: 0 })
}

/// Reads the command line.
pub fn run(args: &[String], version: &str) -> (r: Command)
    ensures
        r@ == run_spec(job::words(args@), version@),
{
    if args.len() == 0 {
        return print(USAGE.to_owned());
    }
    let first: &String = &args[0];
    assert(job::words(args@)[0] == first@);
    if is(first, "-h") || is(first, "--help") {
        print(USAGE.to_owned())
    } else if is(first, "--describe") {
        print(json::to_pretty(&contract::describe()).concat("\n"))
    } else if is(first, "-V") || is(first, "--version") {
        print("vyges-remap ".to_owned().concat(version).concat("\n"))
    } else if is(first, "emap") {
        let rest: &[String] = vstd::slice::slice_subrange(args, 1, args.len());
        assert(job::words(rest@) == job::words(args@).skip(1));
        Command::Emap(job::read_job(rest))
    } else {
        Command::Print(
            Output {
                stdout: String::new(),
                stderr: "vyges-remap: unknown command '".to_owned().concat(first.as_str()).concat(
                    "' (try --help)\n",
                ),
                code: 2,
            },
        )
    }
}

}
