# vyges-remap

A Loom engine for file-level multi-output technology re-mapping, with a library
that is verified with Verus.

Given a netlist (AIGER, or Verilog with its top module, from which Yosys extracts one) and a cell
library (genlib, or Liberty which ABC converts), it runs the `vyges-emap` driver
twice, as a single-output baseline and with multi-output cells, has ABC check the
re-mapped netlist against its input, and reports the before/after change in cells
and area.

```sh
vyges-remap emap --verilog design.v --top design --genlib tech.genlib -o design.remap.v --json
vyges-remap emap --aig design.aig --genlib tech.genlib -o design.remap.v --json
```

## Layout

- `src/cli.rs`: the command line.
- `src/job.rs`: the options of a re-mapping.
- `src/session.rs`: a re-mapping as a conversation of actions and replies.
- `src/tools.rs`: how the tools are invoked, and what their replies mean.
- `src/stats.rs`: the counts of a pass, and how they change.
- `src/report.rs`: result envelope, summary, completion event, failures.
- `src/contract.rs`: the contract that `--describe` publishes.
- `src/text.rs`: lines, searching, numerals.
- `src/json.rs`: the boundary to `serde_json`.
- `src/laws.rs`: what holds of the engine as a whole.
- `app/`: the program, which runs the tools, reads and removes files, does the
  floating-point arithmetic, and prints.

A double is known to the proofs by its bit pattern. How `serde_json` reads and
prints JSON, and how `std` prints a double, is named and not described.
