//! Laws of the tools: how each is called, and what its reply means.

use vstd::prelude::*;

use super::reading;
use crate::json;
use crate::json::Json;
use crate::stats;
use crate::stats::StatsView;
use crate::text;
use crate::tools;
use crate::tools::{ExitTextView, ReadReplyView, RunReplyView, RunTextView};

verus! {

/// The arguments come in pairs, and `flag` stands first in the pair at `k`.
pub open spec fn flag_at(args: Seq<Seq<char>>, flag: Seq<char>, k: int) -> bool {
    0 <= 2 * k < args.len() && args[2 * k] == flag
}

/// `flag` is given, and each time with `value` directly behind it.
pub open spec fn passed(args: Seq<Seq<char>>, flag: Seq<char>, value: Seq<char>) -> bool {
    &&& exists|k: int| #[trigger] flag_at(args, flag, k)
    &&& forall|k: int| #[trigger]
        flag_at(args, flag, k) ==> 2 * k + 1 < args.len() && args[2 * k + 1] == value
}

/// `flag` is not given.
pub open spec fn not_passed(args: Seq<Seq<char>>, flag: Seq<char>) -> bool {
    forall|k: int| !#[trigger] flag_at(args, flag, k)
}

proof fn lemma_flags_differ()
    ensures
        "--aig"@ != "--genlib"@ && "--aig"@ != "-o"@ && "--aig"@ != "--stats"@,
        "--aig"@ != "--module"@ && "--aig"@ != "--multioutput"@,
        "--genlib"@ != "-o"@ && "--genlib"@ != "--stats"@ && "--genlib"@ != "--module"@,
        "--genlib"@ != "--multioutput"@ && "-o"@ != "--stats"@ && "-o"@ != "--module"@,
        "-o"@ != "--multioutput"@ && "--stats"@ != "--module"@ && "--stats"@ != "--multioutput"@,
        "--module"@ != "--multioutput"@,
{
    reveal_strlit("--aig");
    reveal_strlit("--genlib");
    reveal_strlit("-o");
    reveal_strlit("--stats");
    reveal_strlit("--module");
    reveal_strlit("--multioutput");
    assert("--aig"@.len() == 5 && "--genlib"@.len() == 8 && "-o"@.len() == 2);
    assert("--stats"@.len() == 7 && "--module"@.len() == 8 && "--multioutput"@.len() == 13);
    assert("--genlib"@[2] == 'g' && "--module"@[2] == 'm');
}

/// A pass of the mapper is told the netlist, the library, where to write the
/// result and where to leave its counts, each behind the flag for it, and the
/// name of the module where there is one. The switch for multi-output cells
/// stands last, where it is asked for. Nothing else is passed.
pub proof fn law_a_pass_is_told_everything(
    aig: Seq<char>,
    genlib: Seq<char>,
    module: Seq<char>,
    out: Seq<char>,
    stats_path: Seq<char>,
    multioutput: bool,
)
    ensures
        ({
            let args = tools::emap_args_spec(aig, genlib, module, out, stats_path, multioutput);
            &&& passed(args, "--aig"@, aig)
            &&& passed(args, "--genlib"@, genlib)
            &&& passed(args, "-o"@, out)
            &&& passed(args, "--stats"@, stats_path)
            &&& module.len() > 0 ==> passed(args, "--module"@, module)
            &&& module.len() == 0 ==> not_passed(args, "--module"@)
            &&& multioutput <==> !not_passed(args, "--multioutput"@)
            &&& multioutput ==> args.last() == "--multioutput"@
            &&& args.len() == 8 + (if module.len() > 0 {
                2int
            } else {
                0
            }) + (if multioutput {
                1int
            } else {
                0
            })
        }),
{
    let args = tools::emap_args_spec(aig, genlib, module, out, stats_path, multioutput);
    lemma_flags_differ();
    assert(args[0] == "--aig"@ && args[1] == aig && args[2] == "--genlib"@ && args[3] == genlib);
    assert(args[4] == "-o"@ && args[5] == out && args[6] == "--stats"@ && args[7] == stats_path);
    if module.len() > 0 {
        assert(args[8] == "--module"@ && args[9] == module);
        assert(flag_at(args, "--module"@, 4));
        if multioutput {
            assert(args[10] == "--multioutput"@);
            assert(flag_at(args, "--multioutput"@, 5));
        }
    } else if multioutput {
        assert(args[8] == "--multioutput"@);
        assert(flag_at(args, "--multioutput"@, 4));
    }
    assert(flag_at(args, "--aig"@, 0));
    assert(flag_at(args, "--genlib"@, 1));
    assert(flag_at(args, "-o"@, 2));
    assert(flag_at(args, "--stats"@, 3));
    assert forall|flag: Seq<char>, k: int| #[trigger]
        flag_at(args, flag, k) && k >= 0 implies k == 0 || k == 1 || k == 2 || k == 3 || k == 4 || k
        == 5 by {
        assert(2 * k < args.len());
    }
}

/// The program that gets a command line splits it at each `"; "`.
pub open spec fn in_turn(commands: Seq<Seq<char>>) -> Seq<char>
    decreases commands.len(),
{
    if commands.len() == 0 {
        Seq::empty()
    } else if commands.len() == 1 {
        commands[0]
    } else {
        commands[0] + seq![';', ' '] + in_turn(commands.drop_first())
    }
}

/// A command with the file that it reads or writes.
pub open spec fn on(command: Seq<char>, file: Seq<char>) -> Seq<char> {
    command + seq![' '] + file
}

/// ABC converts a library in two steps: it reads the Liberty file, and then
/// writes the genlib.
pub proof fn law_conversion_reads_and_writes(liberty: Seq<char>, out_genlib: Seq<char>)
    ensures
        tools::liberty_script(liberty, out_genlib) == in_turn(
            seq![on("read_liberty"@, liberty), on("write_genlib"@, out_genlib)],
        ),
{
    reveal_with_fuel(in_turn, 3);
    reveal_strlit("read_liberty ");
    reveal_strlit("read_liberty");
    reveal_strlit("; write_genlib ");
    reveal_strlit("write_genlib");
    let commands = seq![on("read_liberty"@, liberty), on("write_genlib"@, out_genlib)];
    assert(commands.drop_first() == seq![on("write_genlib"@, out_genlib)]);
    assert("read_liberty "@ == "read_liberty"@ + seq![' ']);
    assert("; write_genlib "@ == seq![';', ' '] + "write_genlib"@ + seq![' ']);
    assert(tools::liberty_script(liberty, out_genlib) == in_turn(commands));
}

/// ABC checks a netlist in three steps: it reads the library, then the mapped
/// netlist, and then compares that with the logic it was made from.
pub proof fn law_check_compares_output_and_input(
    genlib: Seq<char>,
    mapped_v: Seq<char>,
    input_aig: Seq<char>,
)
    ensures
        tools::cec_script(genlib, mapped_v, input_aig) == in_turn(
            seq![on("read_genlib"@, genlib), on("read -m"@, mapped_v), on("cec -n"@, input_aig)],
        ),
{
    reveal_with_fuel(in_turn, 4);
    reveal_strlit("read_genlib ");
    reveal_strlit("read_genlib");
    reveal_strlit("; read -m ");
    reveal_strlit("read -m");
    reveal_strlit("; cec -n ");
    reveal_strlit("cec -n");
    let commands = seq![
        on("read_genlib"@, genlib),
        on("read -m"@, mapped_v),
        on("cec -n"@, input_aig),
    ];
    assert(commands.drop_first() == seq![on("read -m"@, mapped_v), on("cec -n"@, input_aig)]);
    assert(commands.drop_first().drop_first() == seq![on("cec -n"@, input_aig)]);
    assert("read_genlib "@ == "read_genlib"@ + seq![' ']);
    assert("; read -m "@ == seq![';', ' '] + "read -m"@ + seq![' ']);
    assert("; cec -n "@ == seq![';', ' '] + "cec -n"@ + seq![' ']);
    assert(tools::cec_script(genlib, mapped_v, input_aig) == in_turn(commands));
}

/// Yosys reads the Verilog, elaborates it from the given module on, reduces it
/// to gates and inverters, and writes the AIGER netlist, in this order.
pub proof fn law_extraction_ends_in_an_aig(
    verilog: Seq<char>,
    top: Seq<char>,
    out_aig: Seq<char>,
)
    ensures
        tools::verilog_script(verilog, top, out_aig) == in_turn(
            seq![
                on("read_verilog"@, verilog),
                on("hierarchy -top"@, top) + seq![' '] + "-check"@,
                "proc"@,
                "flatten"@,
                "techmap"@,
                "opt -purge"@,
                "aigmap"@,
                on("write_aiger -symbols"@, out_aig),
            ],
        ),
{
    let first = on("read_verilog"@, verilog);
    let second = on("hierarchy -top"@, top) + seq![' '] + "-check"@;
    let last = on("write_aiger -symbols"@, out_aig);
    let c6 = seq!["aigmap"@, last];
    let c5 = seq!["opt -purge"@, "aigmap"@, last];
    let c4 = seq!["techmap"@, "opt -purge"@, "aigmap"@, last];
    let c3 = seq!["flatten"@, "techmap"@, "opt -purge"@, "aigmap"@, last];
    let c2 = seq!["proc"@, "flatten"@, "techmap"@, "opt -purge"@, "aigmap"@, last];
    let c1 = seq![second, "proc"@, "flatten"@, "techmap"@, "opt -purge"@, "aigmap"@, last];
    let c0 = seq![first, second, "proc"@, "flatten"@, "techmap"@, "opt -purge"@, "aigmap"@, last];
    assert(c6.drop_first() == seq![last]);
    assert(c5.drop_first() == c6);
    assert(c4.drop_first() == c5);
    assert(c3.drop_first() == c4);
    assert(c2.drop_first() == c3);
    assert(c1.drop_first() == c2);
    assert(c0.drop_first() == c1);
    let sep = seq![';', ' '];
    let w = "write_aiger -symbols"@ + seq![' '];
    lemma_step("aigmap"@, w, out_aig);
    let r6 = "aigmap"@ + sep + w;
    lemma_step("opt -purge"@, r6, out_aig);
    let r5 = "opt -purge"@ + sep + r6;
    lemma_step("techmap"@, r5, out_aig);
    let r4 = "techmap"@ + sep + r5;
    lemma_step("flatten"@, r4, out_aig);
    let r3 = "flatten"@ + sep + r4;
    lemma_step("proc"@, r3, out_aig);
    let r2 = "proc"@ + sep + r3;
    assert(in_turn(seq![last]) == w + out_aig);
    assert(in_turn(c6) == r6 + out_aig);
    assert(in_turn(c5) == r5 + out_aig);
    assert(in_turn(c4) == r4 + out_aig);
    assert(in_turn(c3) == r3 + out_aig);
    assert(in_turn(c2) == r2 + out_aig);
    assert(in_turn(c1) == second + sep + (r2 + out_aig));
    assert(in_turn(c0) == first + sep + in_turn(c1));
    lemma_extraction_words();
    lemma_extraction_frame(verilog, top, r2, out_aig);
}

proof fn lemma_step(command: Seq<char>, rest: Seq<char>, end: Seq<char>)
    ensures
        command + seq![';', ' '] + (rest + end) == (command + seq![';', ' '] + rest) + end,
{
}

proof fn lemma_extraction_frame(
    verilog: Seq<char>,
    top: Seq<char>,
    steps: Seq<char>,
    end: Seq<char>,
)
    ensures
        on("read_verilog"@, verilog) + seq![';', ' '] + (on("hierarchy -top"@, top) + seq![' ']
            + "-check"@ + seq![';', ' '] + (steps + end)) == ("read_verilog"@ + seq![' '])
            + verilog + (seq![';', ' '] + "hierarchy -top"@ + seq![' ']) + top + (seq![' ']
            + "-check"@ + seq![';', ' '] + steps) + end,
{
}

proof fn lemma_extraction_words()
    ensures
        "read_verilog "@ == "read_verilog"@ + seq![' '],
        "; hierarchy -top "@ == seq![';', ' '] + "hierarchy -top"@ + seq![' '],
        " -check; proc; flatten; techmap; opt -purge; aigmap; write_aiger -symbols "@ == seq![' ']
            + "-check"@ + seq![';', ' '] + ("proc"@ + seq![';', ' '] + ("flatten"@ + seq![';', ' ']
            + ("techmap"@ + seq![';', ' '] + ("opt -purge"@ + seq![';', ' '] + ("aigmap"@ + seq![
            ';',
            ' ',
        ] + ("write_aiger -symbols"@ + seq![' '])))))),
{
    reveal_strlit("read_verilog ");
    reveal_strlit("read_verilog");
    reveal_strlit("; hierarchy -top ");
    reveal_strlit("hierarchy -top");
    reveal_strlit(" -check; proc; flatten; techmap; opt -purge; aigmap; write_aiger -symbols ");
    reveal_strlit("-check");
    reveal_strlit("proc");
    reveal_strlit("flatten");
    reveal_strlit("techmap");
    reveal_strlit("opt -purge");
    reveal_strlit("aigmap");
    reveal_strlit("write_aiger -symbols");
}

/// A pass of the mapper is all right just when the program ran and said so.
/// Otherwise the message names the program that could not be started and why,
/// or gives the exit code (or -1) and the end of what went to the error
/// stream.
pub proof fn law_a_pass_fails_by_its_status(emap: Seq<char>, reply: RunTextView)
    ensures
        tools::emap_fault(emap, reply) is None <==> reply is Exited && reply->Exited_0.success,
        reply is CannotStart ==> tools::emap_fault(emap, reply) == Some(
            "cannot run '"@ + emap + "': "@ + reply->CannotStart_0
                + " (set $VYGES_EMAP or install vyges-emap)"@,
        ),
        reply is Exited && !reply->Exited_0.success && reply->Exited_0.code is Some
            ==> tools::emap_fault(emap, reply) == Some(
            "vyges-emap exited "@ + text::int_text(reply->Exited_0.code->0 as int) + ": "@
                + text::tail_spec(reply->Exited_0.stderr),
        ),
        reply is Exited && !reply->Exited_0.success && reply->Exited_0.code is None
            ==> tools::emap_fault(emap, reply) == Some(
            "vyges-emap exited "@ + seq!['-', '1'] + ": "@ + text::tail_spec(
                reply->Exited_0.stderr,
            ),
        ),
{
    reading::law_numerals_count_in_tens(1, 1);
    assert(seq!['-'] + seq![reading::digit_char(1)] == seq!['-', '1']);
}

/// An extraction or a conversion is all right just when the program ran, said
/// so, and left the file that it was to produce. Otherwise the message says
/// why the program could not be started, or quotes the end of what went to
/// the error stream.
pub proof fn law_a_preparation_needs_its_file(reply: RunTextView)
    ensures
        tools::verilog_fault(reply) is None <==> reply is Exited && reply->Exited_0.success
            && reply->Exited_0.produced,
        tools::liberty_fault(reply) is None <==> reply is Exited && reply->Exited_0.success
            && reply->Exited_0.produced,
        reply is CannotStart ==> tools::verilog_fault(reply) == Some(
            "cannot run yosys: "@ + reply->CannotStart_0 + " (set $VYGES_YOSYS or install yosys)"@,
        ),
        reply is CannotStart ==> tools::liberty_fault(reply) == Some(
            "cannot run abc: "@ + reply->CannotStart_0 + " (set $VYGES_ABC or install abc)"@,
        ),
        reply is Exited && tools::verilog_fault(reply) is Some ==> tools::verilog_fault(reply)
            == Some("yosys Verilog->AIG failed: "@ + text::tail_spec(reply->Exited_0.stderr)),
        reply is Exited && tools::liberty_fault(reply) is Some ==> tools::liberty_fault(reply)
            == Some("abc Liberty->genlib failed: "@ + text::tail_spec(reply->Exited_0.stderr)),
{
}

/// A text is something, then `word`, then something more.
pub open spec fn parts_at(
    whole: Seq<char>,
    before: Seq<char>,
    word: Seq<char>,
    after: Seq<char>,
) -> bool {
    whole == before + word + after
}

/// `word` was printed, on either stream, whatever else was.
pub open spec fn prints(exit: ExitTextView, word: Seq<char>) -> bool {
    exists|before: Seq<char>, after: Seq<char>| #[trigger]
        parts_at(exit.stdout + exit.stderr, before, word, after)
}

proof fn lemma_prints(exit: ExitTextView, word: Seq<char>)
    ensures
        prints(exit, word) <==> text::has_word(exit.stdout + exit.stderr, word),
{
    let whole = exit.stdout + exit.stderr;
    if text::has_word(whole, word) {
        let parts = reading::law_a_text_splits_at_its_word(whole, word);
        assert(parts_at(whole, parts.0, word, parts.1));
    }
    if prints(exit, word) {
        let (before, after) = choose|before: Seq<char>, after: Seq<char>| #[trigger]
            parts_at(whole, before, word, after);
        reading::law_a_word_stands_between(before, word, after);
    }
}

/// The verdict of a check is what the program printed, wherever it stands and
/// whatever else was printed, and whatever the status: equivalent where it says
/// so, not equivalent where it says only that, and unknown just where it says
/// neither. Then the end of what it printed is quoted.
pub proof fn law_the_verdict_is_what_was_printed(exit: ExitTextView)
    ensures
        tools::cec_spec(RunTextView::Exited(exit)) == Ok::<bool, Seq<char>>(true) <==> prints(
            exit,
            "Networks are equivalent"@,
        ),
        tools::cec_spec(RunTextView::Exited(exit)) == Ok::<bool, Seq<char>>(false) <==> prints(
            exit,
            "Networks are NOT equivalent"@,
        ) && !prints(exit, "Networks are equivalent"@),
        tools::cec_spec(RunTextView::Exited(exit)) is Err <==> !prints(
            exit,
            "Networks are NOT equivalent"@,
        ) && !prints(exit, "Networks are equivalent"@),
        tools::cec_spec(RunTextView::Exited(exit)) is Err ==> tools::cec_spec(
            RunTextView::Exited(exit),
        ) == Err::<bool, Seq<char>>(
            "abc cec inconclusive: "@ + text::tail_spec(exit.stdout + exit.stderr),
        ),
{
    lemma_prints(exit, "Networks are equivalent"@);
    lemma_prints(exit, "Networks are NOT equivalent"@);
}

/// The same for a given place: whatever stands before and behind the words.
pub proof fn law_the_verdict_may_stand_anywhere(
    exit: ExitTextView,
    before: Seq<char>,
    after: Seq<char>,
)
    ensures
        exit.stdout + exit.stderr == before + "Networks are equivalent"@ + after
            ==> tools::cec_spec(RunTextView::Exited(exit)) == Ok::<bool, Seq<char>>(true),
        exit.stdout + exit.stderr == before + "Networks are NOT equivalent"@ + after && !prints(
            exit,
            "Networks are equivalent"@,
        ) ==> tools::cec_spec(RunTextView::Exited(exit)) == Ok::<bool, Seq<char>>(false),
{
    let whole = exit.stdout + exit.stderr;
    law_the_verdict_is_what_was_printed(exit);
    if whole == before + "Networks are equivalent"@ + after {
        assert(parts_at(whole, before, "Networks are equivalent"@, after));
    }
    if whole == before + "Networks are NOT equivalent"@ + after {
        assert(parts_at(whole, before, "Networks are NOT equivalent"@, after));
    }
}

/// A check that cannot be made gives no verdict, but says why.
pub proof fn law_a_check_may_be_impossible(why: Seq<char>)
    ensures
        tools::cec_spec(RunTextView::CannotStart(why)) == Err::<bool, Seq<char>>(
            "cannot run abc for CEC: "@ + why + " (set $VYGES_ABC)"@,
        ),
{
}

/// Decoding a reply changes nothing but that each stream becomes the text that
/// its bytes stand for.
pub proof fn law_decoding_keeps_the_reply(reply: RunReplyView)
    ensures
        reply is CannotStart <==> tools::decoded(reply) is CannotStart,
        reply is CannotStart ==> tools::decoded(reply)->CannotStart_0 == reply->CannotStart_0,
        reply is Exited ==> {
            let (bytes, texts) = (reply->Exited_0, tools::decoded(reply)->Exited_0);
            &&& texts.success == bytes.success
            &&& texts.code == bytes.code
            &&& texts.produced == bytes.produced
            &&& texts.stdout == text::lossy_text(bytes.stdout)
            &&& texts.stderr == text::lossy_text(bytes.stderr)
        },
{
}

/// A value as a number that a sidecar gives, or none.
pub open spec fn number_in(sidecar: Json, key: Seq<char>) -> Option<u64> {
    if sidecar is Object && sidecar->Object_0.contains_key(key)
        && sidecar->Object_0[key] is Number {
        match sidecar->Object_0[key]->Number_0 {
            json::Num::Float(bits) => Some(bits),
            n => Some(json::num_double(n)),
        }
    } else {
        None
    }
}

/// Counts hold the doubles that a sidecar gives, and zero multi-output cells
/// where it gives no number of them.
pub open spec fn counts_of(counts: StatsView, sidecar: Json) -> bool {
    &&& Some(counts.gates) == json_number(number_in(sidecar, "gates"@))
    &&& Some(counts.area) == json_number(number_in(sidecar, "area"@))
    &&& number_in(sidecar, "multioutput_gates"@) is Some ==> Some(counts.mo) == json_number(
        number_in(sidecar, "multioutput_gates"@),
    )
    &&& number_in(sidecar, "multioutput_gates"@) is None ==> counts.mo == Json::Number(
        json::Num::Float(0),
    )
}

/// The JSON number for a double.
pub open spec fn json_number(bits: Option<u64>) -> Option<Json> {
    match bits {
        Some(b) => Some(Json::Number(json::Num::Float(b))),
        None => None,
    }
}

/// A sidecar gives counts just when its cells and its area are numbers,
/// whatever it says of multi-output cells, and then its own.
pub proof fn law_a_sidecar_gives_its_counts(sidecar: Json)
    ensures
        stats::stats_spec(sidecar) is Some <==> number_in(sidecar, "gates"@) is Some && number_in(
            sidecar,
            "area"@,
        ) is Some,
        stats::stats_spec(sidecar) is Some ==> counts_of(stats::stats_spec(sidecar)->0, sidecar),
{
}

/// The counts of a pass are those of the JSON that its sidecar holds. There are
/// none where the sidecar cannot be read, which the message says with the
/// reason, is not JSON, or lacks cells or area.
pub proof fn law_a_pass_is_counted_by_its_sidecar(text: Seq<char>, why: Seq<char>)
    ensures
        tools::emap_stats_spec(ReadReplyView::Text(text)) is Ok <==> {
            &&& json::parsed(text) is Some
            &&& number_in(json::parsed(text)->0, "gates"@) is Some
            &&& number_in(json::parsed(text)->0, "area"@) is Some
        },
        tools::emap_stats_spec(ReadReplyView::Text(text)) is Ok ==> counts_of(
            tools::emap_stats_spec(ReadReplyView::Text(text))->Ok_0,
            json::parsed(text)->0,
        ),
        tools::emap_stats_spec(ReadReplyView::Text(text)) is Err ==> tools::emap_stats_spec(
            ReadReplyView::Text(text),
        ) == Err::<StatsView, Seq<char>>("vyges-emap stats unparsable"@),
        tools::emap_stats_spec(ReadReplyView::CannotRead(why)) == Err::<StatsView, Seq<char>>(
            "no stats from vyges-emap: "@ + why,
        ),
        stats::parsed_stats(text) is Some <==> tools::emap_stats_spec(
            ReadReplyView::Text(text),
        ) is Ok,
        stats::parsed_stats(text) is Some ==> counts_of(
            stats::parsed_stats(text)->0,
            json::parsed(text)->0,
        ),
{
    if json::parsed(text) is Some {
        law_a_sidecar_gives_its_counts(json::parsed(text)->0);
    }
}

}
