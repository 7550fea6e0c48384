use vyges_remap::job::{has_switch, opt, read_job, CellLibrary, Netlist};

fn args(words: &[&str]) -> Vec<String> {
    words.iter().map(|w| w.to_string()).collect()
}

#[test]
fn an_option_has_the_value_behind_its_first_occurrence() {
    let a = args(&["--top", "adder", "--top", "mul", "-o"]);
    assert_eq!(opt(&a, "--top"), Some("adder"));
    assert_eq!(opt(&a, "-o"), None);
    assert_eq!(opt(&a, "--aig"), None);
    assert_eq!(opt(&args(&[]), "--aig"), None);
    assert_eq!(opt(&args(&["--aig", "--json"]), "--aig"), Some("--json"));
}

#[test]
fn what_stands_behind_an_option_changes_nothing() {
    let mut a = args(&["--top", "adder"]);
    a.push("--top".to_string());
    a.push("other".to_string());
    assert_eq!(opt(&a, "--top"), Some("adder"));
}

#[test]
fn switches_are_found() {
    let a = args(&["x", "--json"]);
    assert!(has_switch(&a, "--json"));
    assert!(!has_switch(&a, "--no-cec"));
}

#[test]
fn a_job_has_defaults() {
    let j = read_job(&args(&[]));
    assert!(!j.want_json);
    assert_eq!(j.top, "top");
    assert_eq!(j.out, "remap_out.v");
    assert!(j.netlist.is_none());
    assert!(j.library.is_none());
    assert!(j.check);
}

#[test]
fn a_job_is_read_from_verilog() {
    let j = read_job(&args(&[
        "--verilog", "design.v", "--top", "design", "--genlib", "tech.genlib", "-o",
        "design.remap.v", "--json",
    ]));
    assert!(j.want_json);
    assert_eq!(j.top, "design");
    assert_eq!(j.out, "design.remap.v");
    assert!(matches!(j.netlist, Some(Netlist::Verilog(p)) if p == "design.v"));
    assert!(matches!(j.library, Some(CellLibrary::Genlib(p)) if p == "tech.genlib"));
    assert!(j.check);
}

#[test]
fn verilog_without_its_top_module_is_no_netlist() {
    assert!(read_job(&args(&["--verilog", "d.v", "--genlib", "t.genlib"])).netlist.is_none());
    // an option without a value behind it is not given
    assert!(read_job(&args(&["--verilog", "d.v", "--top"])).netlist.is_none());
    let j = read_job(&args(&["--verilog", "d.v", "--aig", "a.aig"]));
    assert!(matches!(j.netlist, Some(Netlist::Aig(p)) if p == "a.aig"));
    assert_eq!(j.top, "top");
}

#[test]
fn a_job_is_read_from_aiger() {
    let j = read_job(&args(&["--aig", "a.aig", "--liberty", "l.lib", "--out", "o.v", "--no-cec"]));
    assert!(matches!(j.netlist, Some(Netlist::Aig(p)) if p == "a.aig"));
    assert!(matches!(j.library, Some(CellLibrary::Liberty(p)) if p == "l.lib"));
    assert_eq!(j.out, "o.v");
    assert!(!j.check);
}

#[test]
fn the_first_of_two_sources_counts() {
    let j = read_job(&args(&[
        "--verilog", "d.v", "--top", "t", "--aig", "a.aig", "--liberty", "l.lib", "--genlib", "g", "--out", "1",
        "-o", "2",
    ]));
    assert!(matches!(j.netlist, Some(Netlist::Aig(p)) if p == "a.aig"));
    assert!(matches!(j.library, Some(CellLibrary::Genlib(p)) if p == "g"));
    assert_eq!(j.out, "2");
}
