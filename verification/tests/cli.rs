use vyges_remap::cli::{run, Command, USAGE};
use vyges_remap::contract::describe;
use vyges_remap::job::{Job, Netlist};
use vyges_remap::report::Output;

fn command(words: &[&str]) -> Command {
    let args: Vec<String> = words.iter().map(|w| w.to_string()).collect();
    run(&args, "1.2.3")
}

fn output(words: &[&str]) -> Output {
    match command(words) {
        Command::Print(o) => o,
        Command::Emap(_) => panic!("a re-mapping"),
    }
}

fn job(words: &[&str]) -> Job {
    match command(words) {
        Command::Emap(j) => j,
        Command::Print(_) => panic!("no re-mapping"),
    }
}

#[test]
fn help_prints_the_usage() {
    for words in [&[][..], &["-h"][..], &["--help", "emap"][..]] {
        let o = output(words);
        assert_eq!(o.stdout, USAGE);
        assert_eq!(o.stderr, "");
        assert_eq!(o.code, 0);
    }
    assert!(USAGE.starts_with("vyges-remap — file-level"));
    assert!(USAGE.ends_with("$VYGES_EMAP / $VYGES_YOSYS / $VYGES_ABC.\n"));
    assert_eq!(USAGE.lines().count(), 10);
}

#[test]
fn version_is_printed() {
    assert_eq!(output(&["-V"]).stdout, "vyges-remap 1.2.3\n");
    assert_eq!(output(&["--version"]).stdout, "vyges-remap 1.2.3\n");
    assert_eq!(output(&["--version"]).code, 0);
}

#[test]
fn describe_prints_the_contract() {
    let o = output(&["--describe"]);
    assert_eq!(o.stdout, format!("{:#}\n", describe()));
    assert_eq!(o.code, 0);
}

#[test]
fn an_unknown_command_is_refused() {
    let o = output(&["map", "--help"]);
    assert_eq!(o.stdout, "");
    assert_eq!(o.stderr, "vyges-remap: unknown command 'map' (try --help)\n");
    assert_eq!(o.code, 2);
}

#[test]
fn emap_reads_the_rest() {
    let j = job(&["emap", "--aig", "a.aig", "--json"]);
    assert!(j.want_json);
    assert!(matches!(j.netlist, Some(Netlist::Aig(p)) if p == "a.aig"));
    assert!(job(&["emap"]).netlist.is_none());
}
