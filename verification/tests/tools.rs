use vyges_remap::tools::{
    cec_args, cec_verdict, decode_reply, emap_args, emap_exit, emap_stats, liberty_args,
    liberty_exit, resolve_tools, verilog_args, verilog_exit, Exit, ExitText, ReadReply, RunReply,
    RunText,
};

fn exited(success: bool, code: Option<i32>, out: &str, err: &str, produced: bool) -> RunText {
    RunText::Exited(ExitText {
        success,
        code,
        stdout: out.to_string(),
        stderr: err.to_string(),
        produced,
    })
}

fn not_started() -> RunText {
    RunText::CannotStart("No such file".to_string())
}

#[test]
fn tools_go_by_the_environment_or_their_usual_names() {
    let t = resolve_tools(Some("/opt/emap".to_string()), None, Some("berkeley-abc".to_string()));
    assert_eq!(t.emap, "/opt/emap");
    assert_eq!(t.yosys, "yosys");
    assert_eq!(t.abc, "berkeley-abc");
    let t = resolve_tools(None, None, None);
    assert_eq!(t.emap, "vyges-emap");
    assert_eq!(t.abc, "abc");
}

#[test]
fn the_mapper_is_called_with_both_inputs() {
    assert_eq!(
        emap_args("a.aig", "g", "top", "o.v", "s.json", false),
        vec!["--aig", "a.aig", "--genlib", "g", "-o", "o.v", "--stats", "s.json", "--module", "top"]
    );
    assert_eq!(
        emap_args("a.aig", "g", "", "o.v", "s.json", true),
        vec!["--aig", "a.aig", "--genlib", "g", "-o", "o.v", "--stats", "s.json", "--multioutput"]
    );
}

#[test]
fn the_passes_differ_in_one_switch() {
    let mut base = emap_args("a", "g", "m", "o", "s", false);
    base.push("--multioutput".to_string());
    assert_eq!(base, emap_args("a", "g", "m", "o", "s", true));
}

#[test]
fn scripts_of_the_other_tools() {
    assert_eq!(liberty_args("l.lib", "g"), vec!["-q", "read_liberty l.lib; write_genlib g"]);
    assert_eq!(
        verilog_args("d.v", "t", "a.aig"),
        vec![
            "-q",
            "-p",
            "read_verilog d.v; hierarchy -top t -check; proc; flatten; techmap; opt -purge; \
             aigmap; write_aiger -symbols a.aig"
        ]
    );
    assert_eq!(
        cec_args("g", "o.v", "a.aig"),
        vec!["-q", "read_genlib g; read -m o.v; cec -n a.aig"]
    );
}

#[test]
fn a_pass_of_the_mapper_is_checked() {
    assert!(emap_exit("emap", &exited(true, Some(0), "", "noise", false)).is_ok());
    assert_eq!(
        emap_exit("emap", &not_started()),
        Err("cannot run 'emap': No such file (set $VYGES_EMAP or install vyges-emap)".to_string())
    );
    assert_eq!(
        emap_exit("emap", &exited(false, Some(3), "", "1\n2\n3\n4\n5\n6\n7\n", false)),
        Err("vyges-emap exited 3: 2\n3\n4\n5\n6\n7".to_string())
    );
    assert_eq!(
        emap_exit("emap", &exited(false, None, "", "killed", false)),
        Err("vyges-emap exited -1: killed".to_string())
    );
}

#[test]
fn the_sidecar_of_a_pass_is_read() {
    let s = emap_stats(&ReadReply::Text(r#"{"gates":4,"area":8.5}"#.to_string())).ok().unwrap();
    assert_eq!(s.gates, 4.0);
    assert_eq!(s.area, 8.5);
    assert_eq!(s.mo, 0.0);
    assert_eq!(
        emap_stats(&ReadReply::Text("{}".to_string())).err(),
        Some("vyges-emap stats unparsable".to_string())
    );
    assert_eq!(
        emap_stats(&ReadReply::CannotRead("gone".to_string())).err(),
        Some("no stats from vyges-emap: gone".to_string())
    );
}

#[test]
fn a_conversion_needs_success_and_its_file() {
    assert!(liberty_exit(&exited(true, Some(0), "", "", true)).is_ok());
    assert_eq!(
        liberty_exit(&exited(true, Some(0), "", "no gates", false)),
        Err("abc Liberty->genlib failed: no gates".to_string())
    );
    assert_eq!(
        liberty_exit(&exited(false, Some(1), "", "bad", true)),
        Err("abc Liberty->genlib failed: bad".to_string())
    );
    assert_eq!(
        liberty_exit(&not_started()),
        Err("cannot run abc: No such file (set $VYGES_ABC or install abc)".to_string())
    );
}

#[test]
fn an_extraction_needs_success_and_its_file() {
    assert!(verilog_exit(&exited(true, Some(0), "", "", true)).is_ok());
    assert_eq!(
        verilog_exit(&exited(true, Some(0), "", "", false)),
        Err("yosys Verilog->AIG failed: ".to_string())
    );
    assert_eq!(
        verilog_exit(&exited(false, Some(1), "", "ERROR: syntax", true)),
        Err("yosys Verilog->AIG failed: ERROR: syntax".to_string())
    );
    assert_eq!(
        verilog_exit(&not_started()),
        Err("cannot run yosys: No such file (set $VYGES_YOSYS or install yosys)".to_string())
    );
}

#[test]
fn the_verdict_is_what_was_printed() {
    let yes = exited(false, Some(1), "x\nNetworks are equivalent.  Time = 0.1\n", "", false);
    assert_eq!(cec_verdict(&yes), Ok(true));
    let no = exited(true, Some(0), "", "Networks are NOT equivalent.", false);
    assert_eq!(cec_verdict(&no), Ok(false));
    let both = exited(true, Some(0), "Networks are NOT equivalent", "Networks are equivalent", false);
    assert_eq!(cec_verdict(&both), Ok(true));
    // the streams are read as one text
    let split = exited(true, Some(0), "Networks are ", "equivalent", false);
    assert_eq!(cec_verdict(&split), Ok(true));
}

#[test]
fn a_check_that_does_not_decide_says_why() {
    assert_eq!(
        cec_verdict(&exited(true, Some(0), "out of ", "time\n", false)),
        Err("abc cec inconclusive: out of time".to_string())
    );
    assert_eq!(
        cec_verdict(&not_started()),
        Err("cannot run abc for CEC: No such file (set $VYGES_ABC)".to_string())
    );
}

#[test]
fn output_is_decoded_whatever_it_holds() {
    let raw = RunReply::Exited(Exit {
        success: true,
        code: Some(0),
        stdout: "né".as_bytes().to_vec(),
        stderr: vec![b'a', 0xff, b'b'],
        produced: true,
    });
    match decode_reply(raw) {
        RunText::Exited(e) => {
            assert_eq!(e.stdout, "né");
            assert_eq!(e.stderr, "a\u{fffd}b");
            assert!(e.success && e.produced);
            assert_eq!(e.code, Some(0));
        }
        RunText::CannotStart(_) => panic!("it exited"),
    }
    match decode_reply(RunReply::CannotStart("why".to_string())) {
        RunText::CannotStart(why) => assert_eq!(why, "why"),
        RunText::Exited(_) => panic!("it did not start"),
    }
}
