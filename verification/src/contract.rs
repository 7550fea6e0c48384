//! The contract that the engine publishes of itself, for a registry that
//! turns it into a typed tool.

use serde_json::Value;
use vstd::prelude::*;

use crate::json;
use crate::json::Json;

verus! {

/// One input: a string with a description.
pub open spec fn input_tree(description: Seq<char>) -> Json {
    Json::Object(
        map!["type"@ => Json::Text("string"@), "description"@ => Json::Text(description)],
    )
}

fn input_json(description: &str) -> (r: Value)
    ensures
        json::tree(r) == input_tree(description@),
{
    let mut r: Value = json::null();
    json::put(&mut r, "type", json::text("string"));
    json::put(&mut r, "description", json::text(description));
    r
}

/// A JSON array of strings.
pub open spec fn texts_tree(items: Seq<Seq<char>>) -> Json {
    Json::Array(items.map_values(|s: Seq<char>| Json::Text(s)))
}

/// The arguments of a call. A name in braces stands for the input of that
/// name.
pub open spec fn args_template() -> Seq<Seq<char>> {
    seq![
        "emap"@,
        "--verilog"@,
        "{verilog}"@,
        "--top"@,
        "{top}"@,
        "--genlib"@,
        "{genlib}"@,
    ]
}

/// The inputs that a call has to give.
pub open spec fn required_inputs() -> Seq<Seq<char>> {
    seq!["verilog"@, "top"@, "genlib"@]
}

/// How the engine is called.
pub open spec fn invocation_tree() -> Json {
    Json::Object(
        map![
            "args_template"@ => texts_tree(args_template()),
            "optional"@ => Json::Array(
                seq![
                    Json::Object(
                        map!["arg"@ => Json::Text("out"@), "flag"@ => Json::Text("-o"@)],
                    ),
                ],
            ),
            "emits_json"@ => Json::Bool(true),
        ],
    )
}

fn invocation_json() -> (r: Value)
    ensures
        json::tree(r) == invocation_tree(),
{
    let template: Vec<Value> = vec![
        json::text("emap"),
        json::text("--verilog"),
        json::text("{verilog}"),
        json::text("--top"),
        json::text("{top}"),
        json::text("--genlib"),
        json::text("{genlib}"),
    ];
    assert(json::trees(template@) == args_template().map_values(|s: Seq<char>| Json::Text(s)));
    let mut out: Value = json::null();
    json::put(&mut out, "arg", json::text("out"));
    json::put(&mut out, "flag", json::text("-o"));
    let optional: Vec<Value> = vec![out];
    assert(json::trees(optional@) == seq![json::tree(out)]);
    let mut r: Value = json::null();
    json::put(&mut r, "args_template", json::array(template));
    json::put(&mut r, "optional", json::array(optional));
    json::put(&mut r, "emits_json", json::boolean(true));
    r
}

/// The inputs that the engine knows.
pub open spec fn properties_tree() -> Json {
    Json::Object(
        map![
            "verilog"@ => input_tree(
                "Verilog RTL of the logic to remap (Yosys extracts the AIG)"@,
            ),
            "top"@ => input_tree("top module name"@),
            "genlib"@ => input_tree(
                "technology genlib (multi-output cells are derived from xor/maj gates)"@,
            ),
            "aig"@ => input_tree("alternative to verilog: a pre-made AIGER netlist"@),
            "out"@ => input_tree("path to write the remapped Verilog netlist"@),
        ],
    )
}

fn properties_json() -> (r: Value)
    ensures
        json::tree(r) == properties_tree(),
{
    let mut r: Value = json::null();
    json::put(
        &mut r,
        "verilog",
        input_json("Verilog RTL of the logic to remap (Yosys extracts the AIG)"),
    );
    json::put(&mut r, "top", input_json("top module name"));
    json::put(
        &mut r,
        "genlib",
        input_json("technology genlib (multi-output cells are derived from xor/maj gates)"),
    );
    json::put(&mut r, "aig", input_json("alternative to verilog: a pre-made AIGER netlist"));
    json::put(&mut r, "out", input_json("path to write the remapped Verilog netlist"));
    r
}

/// The inputs of a call.
pub open spec fn inputs_tree() -> Json {
    Json::Object(
        map![
            "type"@ => Json::Text("object"@),
            "required"@ => texts_tree(required_inputs()),
            "properties"@ => properties_tree(),
        ],
    )
}

fn inputs_json() -> (r: Value)
    ensures
        json::tree(r) == inputs_tree(),
{
    let required: Vec<Value> = vec![
        json::text("verilog"),
        json::text("top"),
        json::text("genlib"),
    ];
    assert(json::trees(required@) == required_inputs().map_values(|s: Seq<char>| Json::Text(s)));
    let mut r: Value = json::null();
    json::put(&mut r, "type", json::text("object"));
    json::put(&mut r, "required", json::array(required));
    json::put(&mut r, "properties", properties_json());
    r
}

/// The contract of the engine.
pub open spec fn describe_tree() -> Json {
    Json::Object(
        map![
            "name"@ => Json::Text("remap"@),
            "summary"@ => Json::Text(
                "File-level multi-output technology re-mapping (mockturtle emap): AIGER + genlib -> mapped netlist + before/after cell/area delta."@,
            ),
            "invocation"@ => invocation_tree(),
            "inputs"@ => inputs_tree(),
            "artifacts"@ => Json::Array(
                seq![
                    Json::Object(
                        map![
                            "role"@ => Json::Text("netlist"@),
                            "field"@ => Json::Text("out_netlist"@),
                        ],
                    ),
                ],
            ),
        ],
    )
}

/// The contract of the engine, which the registry reads.
pub fn describe() -> (r: Value)
    ensures
        json::tree(r) == describe_tree(),
{
    let mut netlist: Value = json::null();
    json::put(&mut netlist, "role", json::text("netlist"));
    json::put(&mut netlist, "field", json::text("out_netlist"));
    let artifacts: Vec<Value> = vec![netlist];
    assert(json::trees(artifacts@) == seq![json::tree(netlist)]);
    let mut r: Value = json::null();
    json::put(&mut r, "name", json::text("remap"));
    json::put(
        &mut r,
        "summary",
        json::text(
            "File-level multi-output technology re-mapping (mockturtle emap): AIGER + genlib -> mapped netlist + before/after cell/area delta.",
        ),
    );
    json::put(&mut r, "invocation", invocation_json());
    json::put(&mut r, "inputs", inputs_json());
    json::put(&mut r, "artifacts", json::array(artifacts));
    r
}

}
