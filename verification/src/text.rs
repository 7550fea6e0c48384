//! Plain text: lines, searching, and decimal numerals.

use vstd::prelude::*;

verus! {

/// How many of the last lines of a tool's output an error message quotes.
pub const TAIL_LINES: usize = 6;

/// A line without the carriage return that belonged to its line ending.
pub open spec fn without_cr(line: Seq<char>) -> Seq<char> {
    if line.len() > 0 && line.last() == '\r' {
        line.drop_last()
    } else {
        line
    }
}

/// The lines of `s`. A line ends at `"\n"` or `"\r\n"`, which are not part of
/// it; the last line needs no ending. A carriage return anywhere else is an
/// ordinary character.
pub open spec fn lines(s: Seq<char>) -> Seq<Seq<char>>
    decreases s.len(),
    via lines_terminates
{
    match s.index_of_first('\n') {
        Some(end) => seq![without_cr(s.take(end))] + lines(s.skip(end + 1)),
        None => if s.len() == 0 {
            Seq::empty()
        } else {
            seq![s]
        },
    }
}

#[via_fn]
proof fn lines_terminates(s: Seq<char>) {
    s.index_of_first_ensures('\n');
}

/// The given lines in one text, with `"\n"` between each two.
pub open spec fn join_lines(parts: Seq<Seq<char>>) -> Seq<char>
    decreases parts.len(),
{
    if parts.len() == 0 {
        Seq::empty()
    } else if parts.len() == 1 {
        parts[0]
    } else {
        join_lines(parts.drop_last()) + "\n"@ + parts.last()
    }
}

/// The last `n` elements of `s`, or all of them where there are fewer.
pub open spec fn last_of<A>(s: Seq<A>, n: nat) -> Seq<A> {
    if s.len() <= n {
        s
    } else {
        s.skip(s.len() - n)
    }
}

/// The last lines of `s`, as an error message quotes them.
pub open spec fn tail_spec(s: Seq<char>) -> Seq<char> {
    join_lines(last_of(lines(s), TAIL_LINES as nat))
}

/// The stretches of `s` that `spans` marks.
pub open spec fn spanned(s: Seq<char>, spans: Seq<(usize, usize)>) -> Seq<Seq<char>> {
    spans.map_values(|p: (usize, usize)| s.subrange(p.0 as int, p.1 as int))
}

/// Every span lies inside a text of `n` characters.
pub open spec fn spans_fit(spans: Seq<(usize, usize)>, n: nat) -> bool {
    forall|k: int| 0 <= k < spans.len() ==> (#[trigger] spans[k]).0 <= spans[k].1 <= n
}

/// The characters of `s`.
pub fn chars_of(s: &str) -> (r: Vec<char>)
    ensures
        r@ == s@,
{
    let mut r: Vec<char> = Vec::new();
    for c in it: s.chars()
        invariant
            r@ == it.seq().take(it.index()),
            it.seq() == s@,
    {
        r.push(c);
    }
    r
}

/// Where the lines of a text lie in it.
fn line_spans(cs: &Vec<char>) -> (spans: Vec<(usize, usize)>)
    ensures
        spans_fit(spans@, cs@.len()),
        spanned(cs@, spans@) == lines(cs@),
{
    let mut spans: Vec<(usize, usize)> = Vec::new();
    let mut start: usize = 0;
    let mut i: usize = 0;
    assert(cs@.skip(0) == cs@);
    assert(spanned(cs@, spans@) + lines(cs@) == lines(cs@));
    while i < cs.len()
        invariant
            start <= i <= cs.len(),
            spans_fit(spans@, cs@.len()),
            spanned(cs@, spans@) + lines(cs@.skip(start as int)) == lines(cs@),
            forall|k: int| start <= k < i ==> cs@[k] != '\n',
        decreases cs.len() - i,
    {
        if cs[i] == '\n' {
            let end: usize = if start < i && cs[i - 1] == '\r' {
                i - 1
            } else {
                i
            };
            proof {
                let rest = cs@.skip(start as int);
                let at = i - start;
                rest.index_of_first_ensures('\n');
                assert(rest[at] == '\n');
                assert(rest.index_of_first('\n') == Some(at));
                assert(rest.take(at) == cs@.subrange(start as int, i as int));
                assert(without_cr(rest.take(at)) == cs@.subrange(start as int, end as int));
                assert(rest.skip(at + 1) == cs@.skip(i + 1));
                assert(spanned(cs@, spans@.push((start, end))) == spanned(cs@, spans@).push(
                    cs@.subrange(start as int, end as int),
                ));
                assert(spanned(cs@, spans@.push((start, end))) + lines(cs@.skip(i + 1)) == spanned(
                    cs@,
                    spans@,
                ) + lines(rest));
            }
            spans.push((start, end));
            start = i + 1;
        }
        i += 1;
    }
    proof {
        let rest = cs@.skip(start as int);
        rest.index_of_first_ensures('\n');
        assert(rest == cs@.subrange(start as int, cs@.len() as int));
    }
    if start < cs.len() {
        proof {
            assert(spanned(cs@, spans@.push((start, cs@.len() as usize))) == spanned(
                cs@,
                spans@,
            ).push(cs@.subrange(start as int, cs@.len() as int)));
        }
        spans.push((start, cs.len()));
    }
    spans
}

/// The last lines of `s`, joined by newlines.
pub fn tail(s: &str) -> (r: String)
    ensures
        r@ == tail_spec(s@),
{
    let cs: Vec<char> = chars_of(s);
    let spans: Vec<(usize, usize)> = line_spans(&cs);
    let from: usize = if spans.len() <= TAIL_LINES {
        0
    } else {
        spans.len() - TAIL_LINES
    };
    let ghost kept = last_of(lines(s@), TAIL_LINES as nat);
    assert(kept == lines(s@).skip(from as int));
    let mut r: String = String::new();
    let mut k: usize = from;
    assert(kept.take(0) == Seq::<Seq<char>>::empty());
    while k < spans.len()
        invariant
            from <= k <= spans.len(),
            cs@ == s@,
            spans_fit(spans@, s@.len()),
            spanned(s@, spans@) == lines(s@),
            kept == lines(s@).skip(from as int),
            r@ == join_lines(kept.take(k - from)),
        decreases spans.len() - k,
    {
        let span: (usize, usize) = spans[k];
        assert(span.0 <= span.1 <= s@.len());
        let line: &str = s.substring_char(span.0, span.1);
        proof {
            let next = kept.take(k - from + 1);
            assert(spanned(s@, spans@)[k as int] == line@);
            assert(next.drop_last() == kept.take(k - from));
            assert(next.last() == line@);
        }
        if k > from {
            r.append("\n");
        }
        r.append(line);
        k += 1;
    }
    assert(kept.take(k - from) == kept);
    r
}

/// `word` stands somewhere in `text`.
pub open spec fn has_word(text: Seq<char>, word: Seq<char>) -> bool {
    exists|i: int| #[trigger] word_at(text, word, i)
}

/// `word` stands in `text` at position `i`.
pub open spec fn word_at(text: Seq<char>, word: Seq<char>, i: int) -> bool {
    0 <= i <= text.len() - word.len() && text.subrange(i, i + word.len()) == word
}

/// Whether `word` stands in `text` at position `i`.
fn stands_at(text: &Vec<char>, word: &Vec<char>, i: usize) -> (r: bool)
    requires
        i + word@.len() <= text.len(),
    ensures
        r == word_at(text@, word@, i as int),
{
    let mut k: usize = 0;
    while k < word.len()
        invariant
            k <= word.len(),
            i + word@.len() <= text.len(),
            forall|j: int| 0 <= j < k ==> text@[i + j] == #[trigger] word@[j],
        decreases word.len() - k,
    {
        if text[i + k] != word[k] {
            assert(text@.subrange(i as int, i + word@.len())[k as int] == text@[i + k]);
            return false;
        }
        k += 1;
    }
    assert(text@.subrange(i as int, i + word@.len()) == word@);
    true
}

/// Whether `word` stands somewhere in `text`.
pub fn contains(text: &str, word: &str) -> (r: bool)
    ensures
        r == has_word(text@, word@),
{
    let t: Vec<char> = chars_of(text);
    let w: Vec<char> = chars_of(word);
    if w.len() > t.len() {
        return false;
    }
    let last: usize = t.len() - w.len();
    let mut i: usize = 0;
    loop
        invariant
            t@ == text@,
            w@ == word@,
            i <= last,
            last == t@.len() - w@.len(),
            forall|j: int| 0 <= j < i ==> !word_at(text@, word@, j),
        decreases last - i,
    {
        if stands_at(&t, &w, i) {
            return true;
        }
        if i == last {
            return false;
        }
        i += 1;
    }
}

/// The decimal digit `d`.
pub open spec fn digit_text(d: nat) -> Seq<char> {
    if d == 0 {
        "0"@
    } else if d == 1 {
        "1"@
    } else if d == 2 {
        "2"@
    } else if d == 3 {
        "3"@
    } else if d == 4 {
        "4"@
    } else if d == 5 {
        "5"@
    } else if d == 6 {
        "6"@
    } else if d == 7 {
        "7"@
    } else if d == 8 {
        "8"@
    } else {
        "9"@
    }
}

/// The decimal numeral of `n`, without leading zeros.
pub open spec fn nat_text(n: nat) -> Seq<char>
    decreases n,
{
    if n < 10 {
        digit_text(n)
    } else {
        nat_text(n / 10) + digit_text(n % 10)
    }
}

/// The decimal numeral of `n`, with a minus sign where it is negative.
pub open spec fn int_text(n: int) -> Seq<char> {
    if n < 0 {
        "-"@ + nat_text((-n) as nat)
    } else {
        nat_text(n as nat)
    }
}

fn digit(d: u64) -> (r: &'static str)
    requires
        d < 10,
    ensures
        r@ == digit_text(d as nat),
{
    match d {
        0 => "0",
        1 => "1",
        2 => "2",
        3 => "3",
        4 => "4",
        5 => "5",
        6 => "6",
        7 => "7",
        8 => "8",
        _ => "9",
    }
}

/// The decimal numeral of a natural number.
pub fn nat_to_text(n: u64) -> (r: String)
    ensures
        r@ == nat_text(n as nat),
    decreases n,
{
    if n < 10 {
        digit(n).to_owned()
    } else {
        nat_to_text(n / 10).concat(digit(n % 10))
    }
}

/// The decimal numeral of an integer.
pub fn int_to_text(n: i32) -> (r: String)
    ensures
        r@ == int_text(n as int),
{
    if n < 0 {
        "-".to_owned().concat(nat_to_text((-(n as i64)) as u64).as_str())
    } else {
        nat_to_text(n as u64)
    }
}

/// What `String::from_utf8_lossy` makes of some bytes.
pub uninterp spec fn lossy_text(bytes: Seq<u8>) -> Seq<char>;

/// `String::from_utf8_lossy`: valid UTF-8 is decoded as it is. What stands in
/// place of bytes that are not is left to the name.
#[verifier::external_body]
pub(crate) fn from_lossy(bytes: &[u8]) -> (r: String)
    ensures
        r@ == lossy_text(bytes@),
        vstd::utf8::valid_utf8(bytes@) ==> r@ == vstd::utf8::decode_utf8(bytes@),
{
    String::from_utf8_lossy(bytes).into_owned()
}

}
