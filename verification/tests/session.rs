use serde_json::Value;
use vyges_remap::job::read_job;
use vyges_remap::report::Cec;
use vyges_remap::session::{
    work_dir_name, Action, Counts, Finish, Reply, Session, Setting, Stage, Work,
};
use vyges_remap::stats::Change;
use vyges_remap::tools::{resolve_tools, Exit, Invocation, ReadReply, RunReply};

fn setting(words: &[&str]) -> Setting {
    let args: Vec<String> = words.iter().map(|w| w.to_string()).collect();
    Setting {
        job: read_job(&args),
        tools: resolve_tools(None, None, None),
        work: Work::under("w/"),
    }
}

fn exited(success: bool, out: &str, err: &str, produced: bool) -> Reply {
    Reply::Ran(RunReply::Exited(Exit {
        success,
        code: Some(if success { 0 } else { 1 }),
        stdout: out.as_bytes().to_vec(),
        stderr: err.as_bytes().to_vec(),
        produced,
    }))
}

fn done() -> Reply {
    exited(true, "", "", true)
}

fn sidecar(text: &str) -> Reply {
    Reply::Read(ReadReply::Text(text.to_string()))
}

fn change(c: &Counts) -> Change {
    let before = c.before.as_f64().unwrap();
    let after = c.after.as_f64().unwrap();
    Change {
        difference: Value::from(after - before),
        percent: Value::from((after - before) / before * 100.0),
    }
}

fn line(i: &Invocation) -> String {
    format!("{} {}", i.program, i.args.join(" "))
}

/// Plays a session with the given replies to its runs and reads, and returns
/// what it asked for and how it ended.
fn play(words: &[&str], replies: Vec<Reply>) -> (Vec<String>, Finish) {
    let (mut session, mut action) = setting(words).begin();
    let mut asked: Vec<String> = Vec::new();
    let mut replies = replies.into_iter();
    loop {
        let reply = match action {
            Action::Finish(finish) => {
                assert!(matches!(session.stage, Stage::Done));
                assert!(replies.next().is_none());
                return (asked, finish);
            }
            Action::Run(i) => {
                asked.push(line(&i));
                replies.next().unwrap()
            }
            Action::Read(path) => {
                asked.push(format!("read {path}"));
                replies.next().unwrap()
            }
            Action::Compare { cells, area } => {
                asked.push("compare".to_string());
                Reply::Compared { cells: change(&cells), area: change(&area) }
            }
        };
        assert!(session.expects(&reply));
        (session, action) = session.step(reply);
    }
}

const BASE: &str = r#"{"gates":15017,"area":41122}"#;
const MO: &str = r#"{"gates":13819,"area":38792,"multioutput_gates":1171}"#;

#[test]
fn a_whole_session_from_verilog_and_liberty() {
    let (asked, f) = play(
        &["--verilog", "d.v", "--top", "design", "--liberty", "t.lib", "-o", "o.v", "--json"],
        vec![
            done(),
            done(),
            done(),
            sidecar(BASE),
            done(),
            sidecar(MO),
            exited(true, "Networks are equivalent", "", false),
        ],
    );
    assert_eq!(
        asked,
        vec![
            "yosys -q -p read_verilog d.v; hierarchy -top design -check; proc; flatten; techmap; \
             opt -purge; aigmap; write_aiger -symbols w/design.aig",
            "abc -q read_liberty t.lib; write_genlib w/tech.genlib",
            "vyges-emap --aig w/design.aig --genlib w/tech.genlib -o w/base.v --stats w/base.json \
             --module design",
            "read w/base.json",
            "vyges-emap --aig w/design.aig --genlib w/tech.genlib -o o.v --stats w/mo.json \
             --module design --multioutput",
            "read w/mo.json",
            "abc -q read_genlib w/tech.genlib; read -m o.v; cec -n w/design.aig",
            "compare",
        ]
    );
    assert!(f.cleanup);
    assert_eq!(f.output.code, 0);
    assert_eq!(f.output.stderr, "");
    let r: Value = serde_json::from_str(&f.output.stdout).unwrap();
    assert_eq!(r["status"], "ok");
    assert_eq!(r["top"], "design");
    assert_eq!(r["aig"], "w/design.aig");
    assert_eq!(r["genlib"], "w/tech.genlib");
    assert_eq!(r["out_netlist"], "o.v");
    assert_eq!(r["before"]["cell_count"], 15017.0);
    assert_eq!(r["before"]["cell_area"], 41122.0);
    assert_eq!(r["before"]["multioutput_gates"], 0.0);
    assert_eq!(r["after"]["cell_count"], 13819.0);
    assert_eq!(r["after"]["cell_area"], 38792.0);
    assert_eq!(r["after"]["multioutput_gates"], 1171.0);
    assert_eq!(r["multioutput_cells"], 1171.0);
    assert!((r["delta"]["cell_area"]["pct"].as_f64().unwrap() - (-5.67)).abs() < 0.01);
    assert!((r["delta"]["cell_count"]["pct"].as_f64().unwrap() - (-7.98)).abs() < 0.01);
    assert_eq!(r["cec"]["equivalent"], true);
    let e = f.event.unwrap();
    assert_eq!(
        e.message,
        "remap complete on design: cells 15017 -> 13819 (-7.98%), area 41122 -> 38792 (-5.67%), \
         1171 multi-output cell(s)"
    );
}

#[test]
fn a_session_from_files_that_are_there() {
    let (asked, f) = play(
        &["--aig", "a.aig", "--genlib", "g", "--no-cec"],
        vec![done(), sidecar(BASE), done(), sidecar(MO)],
    );
    assert_eq!(
        asked,
        vec![
            "vyges-emap --aig a.aig --genlib g -o w/base.v --stats w/base.json --module top",
            "read w/base.json",
            "vyges-emap --aig a.aig --genlib g -o remap_out.v --stats w/mo.json --module top \
             --multioutput",
            "read w/mo.json",
            "compare",
        ]
    );
    assert_eq!(f.output.code, 0);
    assert_eq!(
        f.output.stdout,
        "[remap] top   1171.0 multi-output cells\n  cells: 15017.0 -> 13819.0  (-7.98%)\n  \
         area:  41122.0 -> 38792.0  (-5.67%)\n  netlist: remap_out.v\n"
    );
}

fn checked(reply: Reply) -> Finish {
    play(
        &["--aig", "a.aig", "--genlib", "g", "--json"],
        vec![done(), sidecar(BASE), done(), sidecar(MO), reply],
    )
    .1
}

#[test]
fn a_netlist_that_is_not_equivalent_is_an_error() {
    let f = checked(exited(true, "Networks are NOT equivalent", "", false));
    assert_eq!(f.output.code, 1);
    let r: Value = serde_json::from_str(&f.output.stdout).unwrap();
    assert_eq!(r["status"], "error");
    assert_eq!(r["cec"]["equivalent"], false);
    assert!(f.event.is_some());
}

#[test]
fn a_check_that_cannot_be_made_is_not_fatal() {
    let f = checked(Reply::Ran(RunReply::CannotStart("no abc".to_string())));
    assert_eq!(f.output.code, 0);
    let r: Value = serde_json::from_str(&f.output.stdout).unwrap();
    assert_eq!(r["status"], "ok");
    assert_eq!(r["cec"]["checked"], false);
    assert_eq!(r["cec"]["reason"], "cannot run abc for CEC: no abc (set $VYGES_ABC)");
    let f = checked(exited(false, "", "timeout", false));
    assert_eq!(f.output.code, 0);
}

#[test]
fn options_that_do_not_say_what_to_work_on() {
    let (asked, f) = play(&["--genlib", "g", "--json"], vec![]);
    assert!(asked.is_empty());
    assert_eq!(f.output.code, 2);
    assert!(!f.cleanup && f.event.is_none());
    assert_eq!(f.output.stdout, "");
    assert_eq!(
        f.output.stderr,
        "vyges-remap emap: --aig <a.aig> or --verilog <d.v> (with --top) is required\n"
    );
    let (asked, f) = play(&["--verilog", "d.v", "--top", "t"], vec![done()]);
    assert_eq!(asked.len(), 1);
    assert_eq!(f.output.code, 2);
    assert!(!f.cleanup);
    assert_eq!(
        f.output.stderr,
        "vyges-remap emap: --genlib <g> or --liberty <lib> is required\n"
    );
}

#[test]
fn verilog_without_its_top_module_is_refused() {
    let (asked, f) = play(&["--verilog", "d.v", "--genlib", "t.genlib"], vec![]);
    assert!(asked.is_empty());
    assert_eq!(f.output.code, 2);
    assert!(!f.cleanup && f.event.is_none());
    assert_eq!(f.output.stdout, "");
    assert_eq!(
        f.output.stderr,
        "vyges-remap emap: --aig <a.aig> or --verilog <d.v> (with --top) is required\n"
    );
}

fn told(words: &[&str], replies: Vec<Reply>) -> String {
    let (_, f) = play(words, replies);
    assert!(f.cleanup && f.event.is_none());
    assert_eq!(f.output.code, 1);
    assert_eq!(f.output.stdout, "");
    f.output.stderr
}

#[test]
fn every_tool_may_fail() {
    let v = ["--verilog", "d.v", "--top", "t", "--liberty", "t.lib"];
    assert_eq!(
        told(&v, vec![exited(false, "", "syntax", false)]),
        "vyges-remap: Verilog->AIG: yosys Verilog->AIG failed: syntax\n"
    );
    assert_eq!(
        told(&v, vec![done(), exited(true, "", "no gates", false)]),
        "vyges-remap: Liberty->genlib: abc Liberty->genlib failed: no gates\n"
    );
    let a = ["--aig", "a.aig", "--genlib", "g"];
    assert_eq!(
        told(&a, vec![exited(false, "", "bad", false)]),
        "vyges-remap: vyges-emap exited 1: bad\n"
    );
    assert_eq!(
        told(&a, vec![done(), Reply::Read(ReadReply::CannotRead("gone".to_string()))]),
        "vyges-remap: no stats from vyges-emap: gone\n"
    );
    assert_eq!(
        told(&a, vec![done(), sidecar(BASE), Reply::Ran(RunReply::CannotStart("x".to_string()))]),
        "vyges-remap: cannot run 'vyges-emap': x (set $VYGES_EMAP or install vyges-emap)\n"
    );
    assert_eq!(
        told(&a, vec![done(), sidecar(BASE), done(), sidecar("{")]),
        "vyges-remap: vyges-emap stats unparsable\n"
    );
}

#[test]
fn a_failure_in_json() {
    let (_, f) = play(
        &["--aig", "a.aig", "--genlib", "g", "--top", "t", "--json"],
        vec![exited(false, "", "bad", false)],
    );
    let r: Value = serde_json::from_str(&f.output.stdout).unwrap();
    assert_eq!(r["status"], "error");
    assert_eq!(r["top"], "t");
    assert_eq!(r["error"], "vyges-emap exited 1: bad");
    assert_eq!(f.output.stderr, "");
}

#[test]
fn runs_say_which_file_they_are_to_produce() {
    match setting(&["--verilog", "d.v", "--top", "t"]).begin().1 {
        Action::Run(i) => assert_eq!(i.produces, Some("w/design.aig".to_string())),
        _ => panic!("not a run"),
    }
    match setting(&["--aig", "a", "--liberty", "l"]).begin().1 {
        Action::Run(i) => assert_eq!(i.produces, Some("w/tech.genlib".to_string())),
        _ => panic!("not a run"),
    }
    match setting(&["--aig", "a", "--genlib", "g"]).begin().1 {
        Action::Run(i) => assert_eq!(i.produces, None),
        _ => panic!("not a run"),
    }
}

#[test]
fn a_reply_of_another_kind_is_not_expected() {
    let (session, _) = setting(&["--aig", "a", "--genlib", "g"]).begin();
    assert!(session.expects(&done()));
    assert!(!session.expects(&sidecar(BASE)));
    let over = Session { setting: session.setting, stage: Stage::Done };
    assert!(!over.expects(&done()));
}

#[test]
fn a_verdict_is_carried_to_the_comparison() {
    let s = vyges_remap::stats::parse_stats(BASE).unwrap();
    let m = vyges_remap::stats::parse_stats(MO).unwrap();
    let (session, action) = setting(&["--aig", "a", "--genlib", "g"]).with_cec(
        "a".to_string(),
        "g".to_string(),
        s,
        m,
        Cec::Checked(false),
    );
    assert!(matches!(session.stage, Stage::Compare { cec: Cec::Checked(false), .. }));
    match action {
        Action::Compare { cells, area } => {
            assert_eq!(cells.before, 15017.0);
            assert_eq!(cells.after, 13819.0);
            assert_eq!(area.before, 41122.0);
            assert_eq!(area.after, 38792.0);
        }
        _ => panic!("not a comparison"),
    }
}

#[test]
fn the_files_of_the_working_directory_differ() {
    let w = Work::under("/tmp/w/");
    let paths = [&w.design_aig, &w.tech_genlib, &w.base_v, &w.base_json, &w.mo_json];
    assert_eq!(
        paths,
        [
            "/tmp/w/design.aig",
            "/tmp/w/tech.genlib",
            "/tmp/w/base.v",
            "/tmp/w/base.json",
            "/tmp/w/mo.json",
        ]
    );
    for (i, a) in paths.iter().enumerate() {
        for b in &paths[i + 1..] {
            assert_ne!(a, b);
        }
    }
}

#[test]
fn a_path_joined_with_nothing_ends_with_its_separator() {
    let dir = std::path::Path::new("tmp").join("w");
    let w = Work::under(&dir.join("").to_string_lossy());
    assert_eq!(w.base_json, dir.join("base.json").to_string_lossy());
}

#[test]
fn without_a_library_a_failed_extraction_is_told_first() {
    let v = ["--verilog", "d.v", "--top", "t"];
    assert_eq!(
        told(&v, vec![exited(false, "", "syntax", false)]),
        "vyges-remap: Verilog->AIG: yosys Verilog->AIG failed: syntax\n"
    );
}

#[test]
fn the_working_directory_is_named_after_the_process() {
    assert_eq!(work_dir_name(4711), "vyges-remap-4711");
}
