//! Laws of reading: lines and words of a text, numerals, options, commands.

use vstd::prelude::*;

use crate::cli;
use crate::cli::CommandView;
use crate::job;
use crate::job::{CellLibraryView, JobView, NetlistView};
use crate::text;

verus! {

/// A line ends at a newline, or at a carriage return and a newline, and what
/// follows is read on its own. A text without a newline is one line, and an
/// empty text has none.
pub proof fn law_a_line_ends_at_a_newline(line: Seq<char>, rest: Seq<char>)
    requires
        !line.contains('\n'),
    ensures
        line.len() == 0 || line[line.len() - 1] != '\r' ==> text::lines(line + seq!['\n'] + rest)
            == seq![line] + text::lines(rest),
        text::lines(line + seq!['\r', '\n'] + rest) == seq![line] + text::lines(rest),
        line.len() > 0 ==> text::lines(line) == seq![line],
        text::lines(Seq::empty()) == Seq::<Seq<char>>::empty(),
{
    let plain = line + seq!['\n'] + rest;
    let end = line.len() as int;
    plain.index_of_first_ensures('\n');
    assert(plain[end] == '\n');
    assert forall|k: int| 0 <= k < end implies plain[k] != '\n' by {
        assert(plain[k] == line[k]);
        assert(line.contains(line[k]));
    }
    assert(plain.take(end) == line);
    assert(plain.skip(end + 1) == rest);
    let dos = line + seq!['\r', '\n'] + rest;
    dos.index_of_first_ensures('\n');
    assert(dos[end] == '\r');
    assert(dos[end + 1] == '\n');
    assert forall|k: int| 0 <= k <= end implies dos[k] != '\n' by {
        if k < end {
            assert(dos[k] == line[k]);
            assert(line.contains(line[k]));
        }
    }
    assert(dos.take(end + 1) == line.push('\r'));
    assert(line.push('\r').drop_last() == line);
    assert(dos.skip(end + 2) == rest);
    line.index_of_first_ensures('\n');
    Seq::<char>::empty().index_of_first_ensures('\n');
}

/// A text that consists of whole lines is read line by line, whatever follows.
pub proof fn law_whole_lines_are_read_first(whole: Seq<char>, rest: Seq<char>)
    requires
        whole.len() == 0 || whole[whole.len() - 1] == '\n',
    ensures
        text::lines(whole + rest) == text::lines(whole) + text::lines(rest),
    decreases whole.len(),
{
    whole.index_of_first_ensures('\n');
    (whole + rest).index_of_first_ensures('\n');
    if whole.len() == 0 {
        assert(whole + rest == rest);
    } else {
        assert(whole.contains('\n'));
        let end = whole.index_of_first('\n')->0;
        assert((whole + rest)[end] == '\n');
        assert forall|k: int| 0 <= k < end implies (whole + rest)[k] != '\n' by {
            assert((whole + rest)[k] == whole[k]);
        }
        assert((whole + rest).contains('\n'));
        assert((whole + rest).index_of_first('\n') == Some(end));
        assert((whole + rest).take(end) == whole.take(end));
        assert((whole + rest).skip(end + 1) == whole.skip(end + 1) + rest);
        law_whole_lines_are_read_first(whole.skip(end + 1), rest);
    }
}

/// Some lines as a program prints them, each with its ending.
pub open spec fn printed_lines(parts: Seq<Seq<char>>) -> Seq<char>
    decreases parts.len(),
{
    if parts.len() == 0 {
        Seq::empty()
    } else {
        parts[0] + seq!['\n'] + printed_lines(parts.drop_first())
    }
}

/// A line as such: it holds no newline and no carriage return at its end.
pub open spec fn is_line(part: Seq<char>) -> bool {
    !part.contains('\n') && (part.len() == 0 || part[part.len() - 1] != '\r')
}

proof fn lemma_printed_lines_are_read(parts: Seq<Seq<char>>)
    requires
        forall|k: int| 0 <= k < parts.len() ==> is_line(#[trigger] parts[k]),
    ensures
        text::lines(printed_lines(parts)) == parts,
        parts.len() > 0 ==> text::join_lines(parts) + seq!['\n'] == printed_lines(parts),
    decreases parts.len(),
{
    if parts.len() == 0 {
        law_a_line_ends_at_a_newline(Seq::empty(), Seq::empty());
    } else {
        let rest = parts.drop_first();
        lemma_printed_lines_are_read(rest);
        assert(is_line(parts[0]));
        law_a_line_ends_at_a_newline(parts[0], printed_lines(rest));
        assert(parts == seq![parts[0]] + rest);
        if parts.len() == 1 {
            assert(printed_lines(rest) == Seq::<char>::empty());
            assert(text::join_lines(parts) + seq!['\n'] == printed_lines(parts));
        } else {
            super::lemma_join_first(parts);
            reveal_strlit("\n");
            assert("\n"@ == seq!['\n']);
            assert(text::join_lines(parts) + seq!['\n'] == parts[0] + seq!['\n'] + (
            text::join_lines(rest) + seq!['\n']));
        }
    }
}

/// What is quoted of an output that ends with six lines is just these six,
/// whatever was printed before them; of an output of fewer lines it is all.
/// Only the ending of the last line is left out.
pub proof fn law_tail_quotes_the_last_six_lines(before: Seq<char>, parts: Seq<Seq<char>>)
    requires
        forall|k: int| 0 <= k < parts.len() ==> is_line(#[trigger] parts[k]),
        before.len() == 0 || before[before.len() - 1] == '\n',
        parts.len() == 6 || (0 < parts.len() < 6 && before.len() == 0),
    ensures
        text::tail_spec(before + printed_lines(parts)) + seq!['\n'] == printed_lines(parts),
        text::tail_spec(Seq::empty()) == Seq::<char>::empty(),
{
    lemma_printed_lines_are_read(parts);
    law_whole_lines_are_read_first(before, printed_lines(parts));
    law_a_line_ends_at_a_newline(Seq::empty(), Seq::empty());
    let all = text::lines(before + printed_lines(parts));
    assert(all == text::lines(before) + parts);
    if all.len() <= 6 {
        assert(text::lines(before) == Seq::<Seq<char>>::empty());
        assert(all == parts);
    } else {
        assert(all.skip(all.len() - 6) == parts);
    }
    assert(text::last_of(all, 6) == parts);
}

/// Whatever the lines of an output are: those that stand last, six of them or
/// all where there are fewer, are quoted, and each but the first stands behind
/// a newline.
pub proof fn law_tail_joins_the_last_lines(
    s: Seq<char>,
    earlier: Seq<Seq<char>>,
    kept: Seq<Seq<char>>,
    last: Seq<char>,
)
    requires
        text::lines(s) == earlier + kept.push(last),
        kept.len() == 5 || (kept.len() < 5 && earlier.len() == 0),
    ensures
        kept.len() == 0 ==> text::tail_spec(s) == last,
        kept.len() > 0 ==> text::tail_spec(s) == text::join_lines(kept) + seq!['\n'] + last,
        kept.len() == 1 ==> text::join_lines(kept) == kept[0],
        kept.len() > 1 ==> text::join_lines(kept) == text::join_lines(kept.drop_last()) + seq!['\n']
            + kept[kept.len() - 1],
{
    let parts = kept.push(last);
    assert(parts.drop_last() == kept);
    if text::lines(s).len() <= 6 {
        assert(earlier + parts == parts);
    } else {
        assert((earlier + parts).skip((earlier + parts).len() - 6) == parts);
    }
    reveal_strlit("\n");
    assert("\n"@ == seq!['\n']);
}

/// A word stands in a text just when the text is something, the word, and
/// something more.
pub proof fn law_a_word_stands_between(before: Seq<char>, word: Seq<char>, after: Seq<char>)
    ensures
        text::has_word(before + word + after, word),
{
    let whole = before + word + after;
    assert(whole.subrange(before.len() as int, (before.len() + word.len()) as int) == word);
    assert(text::word_at(whole, word, before.len() as int));
}

/// Where a word stands in a text, the text is something, the word, and
/// something more.
pub proof fn law_a_text_splits_at_its_word(whole: Seq<char>, word: Seq<char>) -> (parts: (
    Seq<char>,
    Seq<char>,
))
    requires
        text::has_word(whole, word),
    ensures
        whole == parts.0 + word + parts.1,
{
    let i = choose|i: int| #[trigger] text::word_at(whole, word, i);
    let before = whole.take(i);
    let after = whole.skip(i + word.len());
    assert(whole == before + whole.subrange(i, i + word.len()) + after);
    (before, after)
}

/// The character of a decimal digit.
pub open spec fn digit_char(d: nat) -> char {
    ('0' as nat + d) as char
}

proof fn lemma_digits(d: nat)
    requires
        d < 10,
    ensures
        text::digit_text(d) == seq![digit_char(d)],
{
    reveal_strlit("0");
    reveal_strlit("1");
    reveal_strlit("2");
    reveal_strlit("3");
    reveal_strlit("4");
    reveal_strlit("5");
    reveal_strlit("6");
    reveal_strlit("7");
    reveal_strlit("8");
    reveal_strlit("9");
}

/// The numeral of a number below ten is its digit, and a further digit makes
/// the number ten times as large and adds the digit. A negative number has the
/// numeral of its amount behind a minus sign.
pub proof fn law_numerals_count_in_tens(n: nat, d: nat)
    requires
        d < 10,
    ensures
        text::nat_text(d) == seq![digit_char(d)],
        n > 0 ==> text::nat_text(10 * n + d) == text::nat_text(n).push(digit_char(d)),
        text::int_text(n as int) == text::nat_text(n),
        n > 0 ==> text::int_text(-(n as int)) == seq!['-'] + text::nat_text(n),
{
    lemma_digits(d);
    if n > 0 {
        assert((10 * n + d) / 10 == n);
        assert((10 * n + d) % 10 == d);
        assert(text::nat_text(n) + seq![digit_char(d)] == text::nat_text(n).push(digit_char(d)));
    }
    reveal_strlit("-");
    assert("-"@ == seq!['-']);
}

/// Different numbers have different numerals.
pub proof fn law_numerals_differ(m: nat, n: nat)
    requires
        text::nat_text(m) == text::nat_text(n),
    ensures
        m == n,
    decreases m,
{
    lemma_numeral_is_not_empty(m / 10);
    lemma_numeral_is_not_empty(n / 10);
    lemma_digits(m % 10);
    lemma_digits(n % 10);
    if m < 10 {
        lemma_digits(m);
    }
    if n < 10 {
        lemma_digits(n);
    }
    let a = text::nat_text(m);
    let b = text::nat_text(n);
    assert(a.last() == digit_char(m % 10));
    assert(b.last() == digit_char(n % 10));
    assert(m % 10 == n % 10);
    if m >= 10 && n >= 10 {
        assert(a.drop_last() == text::nat_text(m / 10));
        assert(b.drop_last() == text::nat_text(n / 10));
        law_numerals_differ(m / 10, n / 10);
    }
}

proof fn lemma_numeral_is_not_empty(n: nat)
    ensures
        text::nat_text(n).len() > 0,
    decreases n,
{
    lemma_digits(n % 10);
    if n < 10 {
        lemma_digits(n);
    } else {
        lemma_numeral_is_not_empty(n / 10);
    }
}

/// `value` stands directly behind the first argument that is `name`.
pub open spec fn given(args: Seq<Seq<char>>, name: Seq<char>, value: Seq<char>) -> bool {
    exists|i: int| #[trigger] given_at(args, name, value, i)
}

/// The first argument that is `name` stands at `i`, and `value` behind it.
pub open spec fn given_at(
    args: Seq<Seq<char>>,
    name: Seq<char>,
    value: Seq<char>,
    i: int,
) -> bool {
    &&& 0 <= i < args.len() - 1
    &&& args[i] == name
    &&& args[i + 1] == value
    &&& forall|j: int| 0 <= j < i ==> args[j] != name
}

/// No value stands behind a first argument that is `name`.
pub open spec fn missing(args: Seq<Seq<char>>, name: Seq<char>) -> bool {
    forall|value: Seq<char>| !given(args, name, value)
}

/// An option has the value that stands directly behind its first occurrence,
/// and no other.
pub proof fn law_an_option_is_what_stands_behind_it(
    args: Seq<Seq<char>>,
    name: Seq<char>,
    value: Seq<char>,
)
    ensures
        job::opt_spec(args, name) == Some(value) <==> given(args, name, value),
        job::opt_spec(args, name) is None <==> missing(args, name),
{
    args.index_of_first_ensures(name);
    if job::opt_spec(args, name) is Some {
        let i = args.index_of_first(name)->0;
        assert(given_at(args, name, args[i + 1], i));
        assert(given(args, name, job::opt_spec(args, name)->0));
    }
    assert forall|v: Seq<char>| given(args, name, v) implies job::opt_spec(args, name) == Some(
        v,
    ) by {
        let i = choose|i: int| #[trigger] given_at(args, name, v, i);
        assert(args.contains(args[i]));
        let j = args.index_of_first(name)->0;
        assert(i == j);
    }
}

/// An option in the middle of a call is read, whatever stands around it.
pub proof fn law_an_option_is_read_anywhere(
    before: Seq<Seq<char>>,
    name: Seq<char>,
    value: Seq<char>,
    after: Seq<Seq<char>>,
)
    requires
        !before.contains(name),
    ensures
        job::opt_spec(before + seq![name, value] + after, name) == Some(value),
        job::opt_spec(before, name) is None,
        job::opt_spec(before.push(name), name) is None,
{
    let args = before + seq![name, value] + after;
    args.index_of_first_ensures(name);
    before.index_of_first_ensures(name);
    before.push(name).index_of_first_ensures(name);
    let n = before.len() as int;
    assert(args[n] == name);
    assert forall|k: int| 0 <= k < n implies args[k] != name && before.push(name)[k] != name by {
        assert(before.contains(before[k]));
    }
    assert(before.push(name)[n] == name);
    assert(before.push(name).contains(name));
}

/// A job is what the arguments say, wherever each stands: a switch counts
/// just when some argument is it, an option has the value behind its first
/// occurrence, and what is not given is as usual.
pub proof fn law_a_job_is_what_the_arguments_say(args: Seq<Seq<char>>, v: Seq<char>)
    ensures
        job::job_spec(args).want_json <==> exists|i: int|
            0 <= i < args.len() && #[trigger] args[i] == "--json"@,
        job::job_spec(args).check <==> forall|i: int|
            0 <= i < args.len() ==> #[trigger] args[i] != "--no-cec"@,
        given(args, "--top"@, v) ==> job::job_spec(args).top == v,
        missing(args, "--top"@) ==> job::job_spec(args).top == "top"@,
        given(args, "-o"@, v) ==> job::job_spec(args).out == v,
        missing(args, "-o"@) && given(args, "--out"@, v) ==> job::job_spec(args).out == v,
        missing(args, "-o"@) && missing(args, "--out"@) ==> job::job_spec(args).out
            == "remap_out.v"@,
        given(args, "--aig"@, v) ==> job::job_spec(args).netlist == Some(NetlistView::Aig(v)),
        missing(args, "--aig"@) && given(args, "--verilog"@, v) && !missing(args, "--top"@)
            ==> job::job_spec(args).netlist == Some(NetlistView::Verilog(v)),
        missing(args, "--aig"@) && missing(args, "--verilog"@) ==> job::job_spec(
            args,
        ).netlist is None,
        missing(args, "--aig"@) && missing(args, "--top"@) ==> job::job_spec(args).netlist is None,
        given(args, "--genlib"@, v) ==> job::job_spec(args).library == Some(
            CellLibraryView::Genlib(v),
        ),
        missing(args, "--genlib"@) && given(args, "--liberty"@, v) ==> job::job_spec(args).library
            == Some(CellLibraryView::Liberty(v)),
        missing(args, "--genlib"@) && missing(args, "--liberty"@) ==> job::job_spec(
            args,
        ).library is None,
{
    law_an_option_is_what_stands_behind_it(args, "--top"@, v);
    law_an_option_is_what_stands_behind_it(args, "-o"@, v);
    law_an_option_is_what_stands_behind_it(args, "--out"@, v);
    law_an_option_is_what_stands_behind_it(args, "--aig"@, v);
    law_an_option_is_what_stands_behind_it(args, "--verilog"@, v);
    law_an_option_is_what_stands_behind_it(args, "--genlib"@, v);
    law_an_option_is_what_stands_behind_it(args, "--liberty"@, v);
}

/// The options that take the argument behind them.
pub open spec fn is_option(word: Seq<char>) -> bool {
    ||| word == "--top"@
    ||| word == "-o"@
    ||| word == "--out"@
    ||| word == "--aig"@
    ||| word == "--verilog"@
    ||| word == "--genlib"@
    ||| word == "--liberty"@
}

proof fn lemma_inserted(
    before: Seq<Seq<char>>,
    word: Seq<char>,
    after: Seq<Seq<char>>,
    name: Seq<char>,
)
    requires
        before.len() == 0 || before[before.len() - 1] != name,
        word != name,
    ensures
        job::opt_spec(before + seq![word] + after, name) == job::opt_spec(before + after, name),
{
    let with = before + seq![word] + after;
    let without = before + after;
    with.index_of_first_ensures(name);
    without.index_of_first_ensures(name);
    let n = before.len() as int;
    assert forall|k: int| 0 <= k < without.len() implies #[trigger] without[k] == if k < n {
        with[k]
    } else {
        with[k + 1]
    } by {}
    assert(with[n] == word);
    if without.contains(name) {
        let i = without.index_of_first(name)->0;
        let at = if i < n {
            i
        } else {
            i + 1
        };
        assert(with[at] == name);
        assert(with.contains(name));
        let j = with.index_of_first(name)->0;
        assert(j != n);
        let back = if j < n {
            j
        } else {
            j - 1
        };
        assert(without[back] == with[j]);
        assert(back == i);
        if i + 1 < without.len() {
            assert(without[i + 1] == with[at + 1]);
        }
    } else {
        assert forall|k: int| 0 <= k < with.len() implies with[k] != name by {
            if k < n {
                assert(without[k] == with[k]);
                assert(without.contains(without[k]));
            } else if k > n {
                assert(without[k - 1] == with[k]);
                assert(without.contains(without[k - 1]));
            }
        }
    }
}

proof fn lemma_switches_are_no_options()
    ensures
        !is_option("--json"@),
        !is_option("--no-cec"@),
        "--json"@ != "--no-cec"@,
{
    super::lemma_option_names_differ();
    reveal_strlit("--json");
    reveal_strlit("--no-cec");
    reveal_strlit("--top");
    reveal_strlit("-o");
    reveal_strlit("--out");
    reveal_strlit("--aig");
    reveal_strlit("--verilog");
    reveal_strlit("--genlib");
    reveal_strlit("--liberty");
    assert("--json"@.len() == 6 && "--no-cec"@.len() == 8);
    assert("--top"@.len() == 5 && "-o"@.len() == 2 && "--out"@.len() == 5);
    assert("--aig"@.len() == 5 && "--verilog"@.len() == 9 && "--liberty"@.len() == 9);
}

/// A switch may stand anywhere but between an option and its value. It changes
/// what it stands for, and nothing else of the job.
pub proof fn law_a_switch_may_stand_anywhere(before: Seq<Seq<char>>, after: Seq<Seq<char>>)
    requires
        before.len() == 0 || !is_option(before[before.len() - 1]),
    ensures
        job::job_spec(before + seq!["--json"@] + after) == (JobView {
            want_json: true,
            ..job::job_spec(before + after)
        }),
        job::job_spec(before + seq!["--no-cec"@] + after) == (JobView {
            check: false,
            ..job::job_spec(before + after)
        }),
{
    lemma_switches_are_no_options();
    lemma_switch_inserted(before, "--json"@, after);
    lemma_switch_inserted(before, "--no-cec"@, after);
    lemma_contains_inserted(before, "--json"@, after, "--json"@);
    lemma_contains_inserted(before, "--json"@, after, "--no-cec"@);
    lemma_contains_inserted(before, "--no-cec"@, after, "--json"@);
    lemma_contains_inserted(before, "--no-cec"@, after, "--no-cec"@);
}

proof fn lemma_switch_inserted(before: Seq<Seq<char>>, word: Seq<char>, after: Seq<Seq<char>>)
    requires
        before.len() == 0 || !is_option(before[before.len() - 1]),
        !is_option(word),
    ensures
        forall|name: Seq<char>| #[trigger]
            is_option(name) ==> job::opt_spec(before + seq![word] + after, name) == job::opt_spec(
                before + after,
                name,
            ),
        is_option("--top"@) && is_option("-o"@) && is_option("--out"@) && is_option("--aig"@),
        is_option("--verilog"@) && is_option("--genlib"@) && is_option("--liberty"@),
{
    assert forall|name: Seq<char>| #[trigger] is_option(name) implies job::opt_spec(
        before + seq![word] + after,
        name,
    ) == job::opt_spec(before + after, name) by {
        lemma_inserted(before, word, after, name);
    }
}

proof fn lemma_contains_inserted(
    before: Seq<Seq<char>>,
    word: Seq<char>,
    after: Seq<Seq<char>>,
    other: Seq<char>,
)
    ensures
        (before + seq![word] + after).contains(other) <==> word == other || (before
            + after).contains(other),
{
    let with = before + seq![word] + after;
    let without = before + after;
    let n = before.len() as int;
    assert(with[n] == word);
    if without.contains(other) {
        let k = choose|k: int| 0 <= k < without.len() && without[k] == other;
        assert(with[if k < n { k } else { k + 1 }] == other);
    }
    if with.contains(other) && word != other {
        let k = choose|k: int| 0 <= k < with.len() && with[k] == other;
        assert(without[if k < n { k } else { k - 1 }] == other);
    }
}

/// The first argument is the command. `emap` hands all the others on, each of
/// the questions is answered whatever follows, and what is no command is
/// refused by its name with exit code 2.
pub proof fn law_the_first_argument_is_the_command(
    name: Seq<char>,
    rest: Seq<Seq<char>>,
    version: Seq<char>,
)
    ensures
        cli::run_spec(seq!["emap"@] + rest, version) == CommandView::Emap(job::job_spec(rest)),
        name == "-h"@ || name == "--help"@ ==> {
            &&& cli::run_spec(seq![name] + rest, version) == cli::run_spec(Seq::empty(), version)
            &&& cli::run_spec(seq![name] + rest, version) is Print
            &&& cli::run_spec(seq![name] + rest, version)->Print_0.stdout == cli::USAGE@
            &&& cli::run_spec(seq![name] + rest, version)->Print_0.stderr.len() == 0
            &&& cli::run_spec(seq![name] + rest, version)->Print_0.code == 0
        },
        name == "-V"@ || name == "--version"@ ==> {
            &&& cli::run_spec(seq![name] + rest, version) is Print
            &&& cli::run_spec(seq![name] + rest, version)->Print_0.stdout == "vyges-remap "@
                + version + seq!['\n']
            &&& cli::run_spec(seq![name] + rest, version)->Print_0.stderr.len() == 0
            &&& cli::run_spec(seq![name] + rest, version)->Print_0.code == 0
        },
        name == "--describe"@ ==> {
            &&& cli::run_spec(seq![name] + rest, version) is Print
            &&& cli::run_spec(seq![name] + rest, version)->Print_0.stdout
                == crate::json::pretty_text(crate::contract::describe_tree()) + seq!['\n']
            &&& cli::run_spec(seq![name] + rest, version)->Print_0.stderr.len() == 0
            &&& cli::run_spec(seq![name] + rest, version)->Print_0.code == 0
        },
        !is_command(name) ==> {
            &&& cli::run_spec(seq![name] + rest, version) is Print
            &&& cli::run_spec(seq![name] + rest, version)->Print_0.stdout.len() == 0
            &&& cli::run_spec(seq![name] + rest, version)->Print_0.stderr
                == "vyges-remap: unknown command '"@ + name + "' (try --help)\n"@
            &&& cli::run_spec(seq![name] + rest, version)->Print_0.code == 2
        },
{
    reveal_strlit("\n");
    assert("\n"@ == seq!['\n']);
    lemma_command_names_differ();
    assert((seq!["emap"@] + rest).skip(1) == rest);
    assert((seq![name] + rest)[0] == name);
    assert((seq!["emap"@] + rest)[0] == "emap"@);
}

/// The usage names every command, every option and switch that a job is read
/// from, and every variable that names a program.
#[verifier::spinoff_prover]
pub proof fn law_the_usage_names_every_option()
    ensures
        text::has_word(cli::USAGE@, "emap"@),
        text::has_word(cli::USAGE@, "--describe"@),
        text::has_word(cli::USAGE@, "--version"@),
        text::has_word(cli::USAGE@, "--help"@),
        text::has_word(cli::USAGE@, "--verilog"@),
        text::has_word(cli::USAGE@, "--top"@),
        text::has_word(cli::USAGE@, "--aig"@),
        text::has_word(cli::USAGE@, "--genlib"@),
        text::has_word(cli::USAGE@, "--liberty"@),
        text::has_word(cli::USAGE@, "-o"@),
        text::has_word(cli::USAGE@, "--no-cec"@),
        text::has_word(cli::USAGE@, "--json"@),
        text::has_word(cli::USAGE@, "$VYGES_EMAP"@),
        text::has_word(cli::USAGE@, "$VYGES_YOSYS"@),
        text::has_word(cli::USAGE@, "$VYGES_ABC"@),
{
    reveal_strlit(
        "vyges-remap — file-level multi-output technology re-mapping (mockturtle emap)

usage:
  vyges-remap emap (--verilog <d.v> --top T | --aig <a.aig>) (--genlib <g> | --liberty <lib>) [-o out.v] [--no-cec] [--json]
  vyges-remap --describe        structured tool contract (for `vyges mcp`)
  vyges-remap --version | --help

Extracts an AIG (Yosys, from --verilog) or takes one (--aig), then runs the
vyges-emap driver twice (single-output baseline + multi-output) and reports the
before/after cell/area delta. Tools resolve via $VYGES_EMAP / $VYGES_YOSYS / $VYGES_ABC.
",
    );
    reveal_strlit("emap");
    assert(cli::USAGE@.subrange(7, 11) == "emap"@);
    assert(text::word_at(cli::USAGE@, "emap"@, 7));
    reveal_strlit("--describe");
    assert(cli::USAGE@.subrange(225, 235) == "--describe"@);
    assert(text::word_at(cli::USAGE@, "--describe"@, 225));
    reveal_strlit("--version");
    assert(cli::USAGE@.subrange(300, 309) == "--version"@);
    assert(text::word_at(cli::USAGE@, "--version"@, 300));
    reveal_strlit("--help");
    assert(cli::USAGE@.subrange(312, 318) == "--help"@);
    assert(text::word_at(cli::USAGE@, "--help"@, 312));
    reveal_strlit("--verilog");
    assert(cli::USAGE@.subrange(106, 115) == "--verilog"@);
    assert(text::word_at(cli::USAGE@, "--verilog"@, 106));
    reveal_strlit("--top");
    assert(cli::USAGE@.subrange(122, 127) == "--top"@);
    assert(text::word_at(cli::USAGE@, "--top"@, 122));
    reveal_strlit("--aig");
    assert(cli::USAGE@.subrange(132, 137) == "--aig"@);
    assert(text::word_at(cli::USAGE@, "--aig"@, 132));
    reveal_strlit("--genlib");
    assert(cli::USAGE@.subrange(148, 156) == "--genlib"@);
    assert(text::word_at(cli::USAGE@, "--genlib"@, 148));
    reveal_strlit("--liberty");
    assert(cli::USAGE@.subrange(163, 172) == "--liberty"@);
    assert(text::word_at(cli::USAGE@, "--liberty"@, 163));
    reveal_strlit("-o");
    assert(cli::USAGE@.subrange(30, 32) == "-o"@);
    assert(text::word_at(cli::USAGE@, "-o"@, 30));
    reveal_strlit("--no-cec");
    assert(cli::USAGE@.subrange(192, 200) == "--no-cec"@);
    assert(text::word_at(cli::USAGE@, "--no-cec"@, 192));
    reveal_strlit("--json");
    assert(cli::USAGE@.subrange(203, 209) == "--json"@);
    assert(text::word_at(cli::USAGE@, "--json"@, 203));
    reveal_strlit("$VYGES_EMAP");
    assert(cli::USAGE@.subrange(524, 535) == "$VYGES_EMAP"@);
    assert(text::word_at(cli::USAGE@, "$VYGES_EMAP"@, 524));
    reveal_strlit("$VYGES_YOSYS");
    assert(cli::USAGE@.subrange(538, 550) == "$VYGES_YOSYS"@);
    assert(text::word_at(cli::USAGE@, "$VYGES_YOSYS"@, 538));
    reveal_strlit("$VYGES_ABC");
    assert(cli::USAGE@.subrange(553, 563) == "$VYGES_ABC"@);
    assert(text::word_at(cli::USAGE@, "$VYGES_ABC"@, 553));
}

/// A word that the command line answers to.
pub open spec fn is_command(name: Seq<char>) -> bool {
    ||| name == "emap"@
    ||| name == "-h"@
    ||| name == "--help"@
    ||| name == "-V"@
    ||| name == "--version"@
    ||| name == "--describe"@
}

proof fn lemma_command_names_differ()
    ensures
        "emap"@ != "-h"@ && "emap"@ != "--help"@ && "emap"@ != "--describe"@,
        "emap"@ != "-V"@ && "emap"@ != "--version"@,
        "-V"@ != "-h"@ && "-V"@ != "--help"@ && "-V"@ != "--describe"@,
        "--version"@ != "-h"@ && "--version"@ != "--help"@ && "--version"@ != "--describe"@,
        "--describe"@ != "-h"@ && "--describe"@ != "--help"@,
{
    reveal_strlit("emap");
    reveal_strlit("-h");
    reveal_strlit("--help");
    reveal_strlit("-V");
    reveal_strlit("--version");
    reveal_strlit("--describe");
    assert("emap"@.len() == 4 && "-h"@.len() == 2 && "--help"@.len() == 6 && "-V"@.len() == 2);
    assert("--version"@.len() == 9 && "--describe"@.len() == 10);
    assert("-h"@[1] == 'h' && "-V"@[1] == 'V');
}

/// The arguments are read one by one as they are.
pub proof fn law_words_are_the_arguments(args: Seq<String>, i: int)
    ensures
        job::words(args).len() == args.len(),
        0 <= i < args.len() ==> job::words(args)[i] == args[i]@,
{
}

}
