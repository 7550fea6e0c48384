use serde_json::Value;
use vyges_remap::contract::describe;
use vyges_remap::job::{read_job, CellLibrary, Netlist};

#[test]
fn describe_is_a_valid_engine_contract() {
    let d = describe();
    assert_eq!(d["name"], "remap");
    assert_eq!(d["invocation"]["emits_json"], true);
    assert_eq!(d["invocation"]["args_template"][0], "emap");
    // required inputs match the template's {tokens}
    let req = d["inputs"]["required"].as_array().unwrap();
    assert!(req.contains(&Value::from("verilog")) && req.contains(&Value::from("genlib")));
    assert_eq!(d["invocation"]["args_template"][1], "--verilog");
    assert_eq!(d["artifacts"][0]["field"], "out_netlist");
}

#[test]
fn the_contract_is_complete() {
    assert_eq!(
        describe().to_string(),
        concat_lines(&[
            r#"{"artifacts":[{"field":"out_netlist","role":"netlist"}],"#,
            r#""inputs":{"properties":{"#,
            r#""aig":{"description":"alternative to verilog: a pre-made AIGER netlist","type":"string"},"#,
            r#""genlib":{"description":"technology genlib (multi-output cells are derived from xor/maj gates)","type":"string"},"#,
            r#""out":{"description":"path to write the remapped Verilog netlist","type":"string"},"#,
            r#""top":{"description":"top module name","type":"string"},"#,
            r#""verilog":{"description":"Verilog RTL of the logic to remap (Yosys extracts the AIG)","type":"string"}},"#,
            r#""required":["verilog","top","genlib"],"type":"object"},"#,
            r#""invocation":{"args_template":["emap","--verilog","{verilog}","--top","{top}","--genlib","{genlib}"],"#,
            r#""emits_json":true,"optional":[{"arg":"out","flag":"-o"}]},"#,
            r#""name":"remap","#,
            r#""summary":"File-level multi-output technology re-mapping (mockturtle emap): AIGER + genlib -> mapped netlist + before/after cell/area delta."}"#,
        ])
    );
}

fn concat_lines(parts: &[&str]) -> String {
    parts.concat()
}

#[test]
fn required_inputs_are_the_tokens_of_the_template() {
    let d = describe();
    let tokens: Vec<String> = d["invocation"]["args_template"]
        .as_array()
        .unwrap()
        .iter()
        .map(|w| w.as_str().unwrap())
        .filter(|w| w.starts_with('{') && w.ends_with('}'))
        .map(|w| w[1..w.len() - 1].to_string())
        .collect();
    assert_eq!(tokens, vec!["verilog", "top", "genlib"]);
    for (i, t) in tokens.iter().enumerate() {
        assert_eq!(d["inputs"]["required"][i], t.as_str());
        assert!(d["inputs"]["properties"].get(t).is_some());
    }
}

#[test]
fn a_call_by_the_template_is_understood() {
    let call: Vec<String> = ["--verilog", "d.v", "--top", "adder", "--genlib", "t.genlib"]
        .iter()
        .map(|w| w.to_string())
        .collect();
    let j = read_job(&call);
    assert!(matches!(j.netlist, Some(Netlist::Verilog(p)) if p == "d.v"));
    assert!(matches!(j.library, Some(CellLibrary::Genlib(p)) if p == "t.genlib"));
    assert_eq!(j.top, "adder");
    assert_eq!(j.out, "remap_out.v");
    assert!(j.check && !j.want_json);
}

#[test]
fn a_call_with_the_optional_output_is_understood() {
    let call: Vec<String> =
        ["--verilog", "d.v", "--top", "adder", "--genlib", "t.genlib", "-o", "adder.remap.v"]
            .iter()
            .map(|w| w.to_string())
            .collect();
    let j = read_job(&call);
    assert!(matches!(j.netlist, Some(Netlist::Verilog(p)) if p == "d.v"));
    assert!(matches!(j.library, Some(CellLibrary::Genlib(p)) if p == "t.genlib"));
    assert_eq!(j.top, "adder");
    assert_eq!(j.out, "adder.remap.v");
    assert!(j.check && !j.want_json);
}
