//! Text primitives shared by the request builders and the decoders: decimal
//! numerals, splitting into words, and joining with a separator.

use vstd::prelude::*;

verus! {

/// Whether `c` is white space in the sense of `char::is_whitespace`.
pub uninterp spec fn white_space(c: char) -> bool;

/// `String::push` appends one character and leaves the rest as it was.
pub assume_specification[ String::push ](s: &mut String, c: char)
    ensures
        final(s)@ == old(s)@.push(c),
;

/// `char::is_whitespace`: the answer depends on the character alone, and
/// [`white_space`] is the name the contracts use for it.
#[verifier::external_body]
pub(crate) fn is_white_space(c: char) -> (r: bool)
    ensures
        r == white_space(c),
{
    c.is_whitespace()
}

/// Equality of string slices (`str::eq`): two slices are equal exactly when
/// they hold the same characters in the same order.
#[verifier::external_body]
pub(crate) fn same_text(a: &str, b: &str) -> (r: bool)
    ensures
        r == (a@ == b@),
{
    a == b
}

/// The characters of `s`, one element for each.
pub fn chars_of(s: &str) -> (out: Vec<char>)
    ensures
        out@ == s@,
{
    let mut out: Vec<char> = Vec::new();
    for c in it: s.chars()
        invariant
            out@ == s@.take(it.index() as int),
            it.seq() == s@,
    {
        out.push(c);
    }
    out
}

/// The decimal digit that stands for `d`, for `d` below ten.
pub open spec fn digit_char(d: nat) -> char {
    if d == 0 {
        '0'
    } else if d == 1 {
        '1'
    } else if d == 2 {
        '2'
    } else if d == 3 {
        '3'
    } else if d == 4 {
        '4'
    } else if d == 5 {
        '5'
    } else if d == 6 {
        '6'
    } else if d == 7 {
        '7'
    } else if d == 8 {
        '8'
    } else {
        '9'
    }
}

/// The number a decimal digit stands for, if `c` is one.
pub open spec fn digit_value(c: char) -> Option<nat> {
    if c == '0' {
        Some(0)
    } else if c == '1' {
        Some(1)
    } else if c == '2' {
        Some(2)
    } else if c == '3' {
        Some(3)
    } else if c == '4' {
        Some(4)
    } else if c == '5' {
        Some(5)
    } else if c == '6' {
        Some(6)
    } else if c == '7' {
        Some(7)
    } else if c == '8' {
        Some(8)
    } else if c == '9' {
        Some(9)
    } else {
        None
    }
}

/// The decimal numeral of `n`: no sign, no leading zero, `"0"` for zero.
pub open spec fn decimal(n: nat) -> Seq<char>
    decreases n,
{
    if n < 10 {
        seq![digit_char(n)]
    } else {
        decimal(n / 10).push(digit_char(n % 10))
    }
}

/// The number that `s` is the decimal numeral of. Only the numeral that
/// [`decimal`] writes is read: a sign, a leading zero, an empty text or any
/// other character gives `None`.
pub open spec fn decimal_value(s: Seq<char>) -> Option<nat>
    decreases s.len(),
{
    if s.len() == 0 {
        None
    } else if s.len() == 1 {
        digit_value(s[0])
    } else {
        match (decimal_value(s.drop_last()), digit_value(s.last())) {
            (Some(high), Some(low)) => if high == 0 {
                None
            } else {
                Some(high * 10 + low)
            },
            _ => None,
        }
    }
}

/// Reading a numeral back gives the number it was written from.
pub proof fn lemma_decimal_value_of_decimal(n: nat)
    ensures
        decimal_value(decimal(n)) == Some(n),
        decimal(n).len() >= 1,
    decreases n,
{
    if n < 10 {
    } else {
        lemma_decimal_value_of_decimal(n / 10);
        let s = decimal(n);
        assert(s.drop_last() =~= decimal(n / 10));
    }
}

/// The character for a digit below ten.
fn digit_of(d: u8) -> (c: char)
    requires
        d < 10,
    ensures
        c == digit_char(d as nat),
{
    if d == 0 {
        '0'
    } else if d == 1 {
        '1'
    } else if d == 2 {
        '2'
    } else if d == 3 {
        '3'
    } else if d == 4 {
        '4'
    } else if d == 5 {
        '5'
    } else if d == 6 {
        '6'
    } else if d == 7 {
        '7'
    } else if d == 8 {
        '8'
    } else {
        '9'
    }
}

/// The value of a decimal digit, or `None` for any other character.
pub fn value_of_digit(c: char) -> (d: Option<u8>)
    ensures
        match d {
            Some(v) => digit_value(c) == Some(v as nat),
            None => digit_value(c) is None,
        },
{
    if c == '0' {
        Some(0)
    } else if c == '1' {
        Some(1)
    } else if c == '2' {
        Some(2)
    } else if c == '3' {
        Some(3)
    } else if c == '4' {
        Some(4)
    } else if c == '5' {
        Some(5)
    } else if c == '6' {
        Some(6)
    } else if c == '7' {
        Some(7)
    } else if c == '8' {
        Some(8)
    } else if c == '9' {
        Some(9)
    } else {
        None
    }
}

/// Appends the decimal numeral of `n` to `out`.
pub fn push_decimal(out: &mut String, n: u64)
    ensures
        final(out)@ == old(out)@ + decimal(n as nat),
    decreases n,
{
    if n >= 10 {
        push_decimal(out, n / 10);
    }
    out.push(digit_of((n % 10) as u8));
}

/// The decimal numeral of `n` as a string.
pub fn decimal_string(n: u64) -> (out: String)
    ensures
        out@ == decimal(n as nat),
{
    let mut out = String::new();
    push_decimal(&mut out, n);
    out
}

/// A numeral's value is at least the value of each of its proper prefixes
/// that reads as a number.
proof fn lemma_decimal_value_prefix(s: Seq<char>, k: int)
    requires
        1 <= k <= s.len(),
        decimal_value(s) is Some,
    ensures
        decimal_value(s.take(k)) is Some,
        decimal_value(s.take(k))->0 <= decimal_value(s)->0,
    decreases s.len() - k,
{
    if k == s.len() {
        assert(s.take(k) =~= s);
    } else {
        lemma_decimal_value_prefix(s.drop_last(), k);
        assert(s.drop_last().take(k) =~= s.take(k));
    }
}

/// Reads `s` as the decimal numeral of a 32-bit number.
///
/// The result is `Some(n)` exactly when `s` is the numeral of `n` and `n`
/// fits in 32 bits.
pub fn parse_u32(s: &str) -> (r: Option<u32>)
    ensures
        r == match decimal_value(s@) {
            Some(n) => if n <= u32::MAX {
                Some(n as u32)
            } else {
                None
            },
            None => None::<u32>,
        },
{
    let chars = chars_of(s);
    let n = chars.len();
    if n == 0 {
        return None;
    }
    let mut acc: u64 = 0;
    let mut i: usize = 0;
    while i < n
        invariant
            0 <= i <= n,
            n == chars@.len(),
            chars@ == s@,
            n >= 1,
            acc <= u32::MAX,
            i == 0 ==> acc == 0,
            i >= 1 ==> decimal_value(chars@.take(i as int)) == Some(acc as nat),
        decreases n - i,
    {
        let ghost prefix = chars@.take(i as int);
        let ghost next = chars@.take(i + 1);
        proof {
            assert(next.drop_last() =~= prefix);
            if decimal_value(chars@) is Some {
                lemma_decimal_value_prefix(chars@, i + 1);
            }
        }
        match value_of_digit(chars[i]) {
            None => {
                return None;
            },
            Some(d) => {
                if i >= 1 && acc == 0 {
                    return None;
                }
                let value: u64 = acc * 10 + d as u64;
                if value > 0xffff_ffff {
                    return None;
                }
                acc = value;
            },
        }
        i = i + 1;
    }
    proof {
        assert(chars@.take(n as int) =~= chars@);
    }
    Some(acc as u32)
}

/// Every character of `s` with its mark: whether it is white space.
pub open spec fn marked(s: Seq<char>) -> Seq<(char, bool)> {
    Seq::new(s.len(), |i: int| (s[i], white_space(s[i])))
}

/// The position at which the run of unmarked characters that starts at `i`
/// comes to its end.
pub open spec fn run_end(m: Seq<(char, bool)>, i: int) -> int
    decreases m.len() - i,
{
    if 0 <= i < m.len() && !m[i].1 {
        run_end(m, i + 1)
    } else {
        i
    }
}

/// The characters of `m` from `i` up to `end`, without their marks.
pub open spec fn run(m: Seq<(char, bool)>, i: int, end: int) -> Seq<char> {
    Seq::new((end - i) as nat, |k: int| m[i + k].0)
}

/// The runs of `m` from position `i` on: the maximal stretches of unmarked
/// characters, in order.
pub open spec fn runs_from(m: Seq<(char, bool)>, i: int) -> Seq<Seq<char>>
    decreases m.len() - i,
{
    if 0 <= i < m.len() {
        if m[i].1 {
            runs_from(m, i + 1)
        } else {
            let end = run_end(m, i);
            if i < end <= m.len() {
                seq![run(m, i, end)] + runs_from(m, end)
            } else {
                Seq::empty()
            }
        }
    } else {
        Seq::empty()
    }
}

/// The runs of `m`: what is left when `m` is cut at every stretch of marked
/// characters.
pub open spec fn runs(m: Seq<(char, bool)>) -> Seq<Seq<char>> {
    runs_from(m, 0)
}

/// The words of `s`: what is left when `s` is cut at every stretch of white
/// space. A text of white space alone has no words.
pub open spec fn words(s: Seq<char>) -> Seq<Seq<char>> {
    runs(marked(s))
}

/// `parts` written one after the other with `sep` between each two.
pub open spec fn joined(parts: Seq<Seq<char>>, sep: Seq<char>) -> Seq<char>
    decreases parts.len(),
{
    if parts.len() == 0 {
        Seq::empty()
    } else if parts.len() == 1 {
        parts[0]
    } else {
        joined(parts.drop_last(), sep) + sep + parts.last()
    }
}

/// A run that starts on an unmarked character is not empty, ends inside the
/// sequence, holds no marked character and stops at one.
proof fn lemma_run_end_bounds(m: Seq<(char, bool)>, i: int)
    requires
        0 <= i <= m.len(),
    ensures
        i <= run_end(m, i) <= m.len(),
        i < m.len() && !m[i].1 ==> i < run_end(m, i),
        forall|k: int| i <= k < run_end(m, i) ==> !(#[trigger] m[k]).1,
        run_end(m, i) < m.len() ==> m[run_end(m, i)].1,
    decreases m.len() - i,
{
    if i < m.len() && !m[i].1 {
        lemma_run_end_bounds(m, i + 1);
    }
}

/// Every run holds at least one character, and each of its characters
/// stands unmarked in the sequence.
pub proof fn lemma_runs_are_unmarked(m: Seq<(char, bool)>, i: int)
    requires
        0 <= i <= m.len(),
    ensures
        forall|k: int| 0 <= k < runs_from(m, i).len() ==> (#[trigger] runs_from(m, i)[k]).len() > 0,
        forall|k: int, j: int|
            0 <= k < runs_from(m, i).len() && 0 <= j < runs_from(m, i)[k].len() ==> m.contains(
                (#[trigger] runs_from(m, i)[k][j], false),
            ),
    decreases m.len() - i,
{
    let r = runs_from(m, i);
    if i < m.len() {
        if m[i].1 {
            lemma_runs_are_unmarked(m, i + 1);
            assert(r == runs_from(m, i + 1));
        } else {
            // The first run starts at `i`; the others are the runs from its
            // end on.
            let end = run_end(m, i);
            let first = run(m, i, end);
            let rest = runs_from(m, end);
            lemma_run_end_bounds(m, i);
            lemma_runs_are_unmarked(m, end);
            assert(r == seq![first] + rest);
            assert(r[0] == first);
            assert forall|k: int| 0 <= k < r.len() implies (#[trigger] r[k]).len() > 0 by {
                if k > 0 {
                    assert(r[k] == rest[k - 1]);
                }
            }
            assert forall|k: int, j: int|
                0 <= k < r.len() && 0 <= j < r[k].len() implies m.contains(
                (#[trigger] r[k][j], false),
            ) by {
                if k > 0 {
                    assert(r[k] == rest[k - 1]);
                    assert(m.contains((rest[k - 1][j], false)));
                } else {
                    assert(m[i + j] == (first[j], false));
                }
            }
        }
    } else {
        assert(r.len() == 0);
    }
}

/// Every word holds at least one character, none of them white space.
pub proof fn lemma_words_hold_no_white_space(s: Seq<char>)
    ensures
        forall|k: int| 0 <= k < words(s).len() ==> (#[trigger] words(s)[k]).len() > 0,
        forall|k: int, j: int|
            0 <= k < words(s).len() && 0 <= j < words(s)[k].len() ==> !white_space(
                #[trigger] words(s)[k][j],
            ),
{
    let m = marked(s);
    lemma_runs_are_unmarked(m, 0);
    assert forall|k: int, j: int|
        0 <= k < words(s).len() && 0 <= j < words(s)[k].len() implies !white_space(
        #[trigger] words(s)[k][j],
    ) by {
        let c = words(s)[k][j];
        assert(m.contains((c, false)));
        let p = choose|p: int| 0 <= p < m.len() && m[p] == (c, false);
        assert(s[p] == c);
    }
}

/// A text without white space is one word, and joining its words gives the
/// text back.
pub proof fn lemma_one_word(s: Seq<char>, sep: Seq<char>)
    requires
        s.len() > 0,
        forall|k: int| 0 <= k < s.len() ==> !white_space(#[trigger] s[k]),
    ensures
        words(s) == seq![s],
        joined(words(s), sep) == s,
{
    let m = marked(s);
    lemma_run_end_bounds(m, 0);
    assert(run_end(m, 0) == s.len()) by {
        if run_end(m, 0) < m.len() {
            assert(m[run_end(m, 0)].1 == white_space(s[run_end(m, 0)]));
        }
    }
    assert(run(m, 0, s.len() as int) =~= s);
    assert(runs_from(m, s.len() as int) =~= Seq::<Seq<char>>::empty());
    assert(words(s) =~= seq![s]);
}

/// The views of a list of strings.
pub open spec fn texts_of(parts: Seq<String>) -> Seq<Seq<char>> {
    Seq::new(parts.len(), |i: int| parts[i]@)
}

/// Marks every character of `s`.
pub fn mark(s: &str) -> (m: Vec<(char, bool)>)
    ensures
        m@ == marked(s@),
{
    let mut m: Vec<(char, bool)> = Vec::new();
    for c in it: s.chars()
        invariant
            m@ == marked(s@).take(it.index() as int),
            it.seq() == s@,
    {
        m.push((c, is_white_space(c)));
        assert(m@ =~= marked(s@).take(it.index() + 1));
    }
    assert(marked(s@).take(s@.len() as int) =~= marked(s@));
    m
}

/// Cuts marked characters into their runs.
pub fn split_runs(m: &Vec<(char, bool)>) -> (out: Vec<String>)
    ensures
        texts_of(out@) == runs(m@),
{
    let n = m.len();
    let mut out: Vec<String> = Vec::new();
    let mut i: usize = 0;
    assert(texts_of(out@) =~= Seq::<Seq<char>>::empty());
    while i < n
        invariant
            0 <= i <= n,
            n == m@.len(),
            runs(m@) == texts_of(out@) + runs_from(m@, i as int),
        decreases n - i,
    {
        if m[i].1 {
            i = i + 1;
        } else {
            let start = i;
            let mut word = String::new();
            proof {
                lemma_run_end_bounds(m@, start as int);
            }
            while i < n && !m[i].1
                invariant
                    start <= i <= n,
                    n == m@.len(),
                    word@ == run(m@, start as int, i as int),
                    run_end(m@, i as int) == run_end(m@, start as int),
                decreases n - i,
            {
                word.push(m[i].0);
                proof {
                    assert(run(m@, start as int, i + 1) =~= run(m@, start as int, i as int).push(
                        m@[i as int].0,
                    ));
                }
                i = i + 1;
            }
            let ghost before = out@;
            out.push(word);
            proof {
                assert(texts_of(out@) =~= texts_of(before) + seq![run(m@, start as int, i as int)]);
                assert(runs_from(m@, start as int) == seq![run(m@, start as int, i as int)]
                    + runs_from(m@, i as int));
            }
        }
    }
    out
}

/// Splits `s` into its words.
pub fn split_words(s: &str) -> (out: Vec<String>)
    ensures
        texts_of(out@) == words(s@),
{
    split_runs(&mark(s))
}

/// Writes `parts` one after the other with `sep` between each two.
pub fn join_texts(parts: &Vec<String>, sep: &str) -> (out: String)
    ensures
        out@ == joined(texts_of(parts@), sep@),
{
    let mut out = String::new();
    let mut i: usize = 0;
    while i < parts.len()
        invariant
            0 <= i <= parts.len(),
            out@ == joined(texts_of(parts@).take(i as int), sep@),
        decreases parts.len() - i,
    {
        let ghost all = texts_of(parts@);
        proof {
            assert(all.take(i + 1).drop_last() =~= all.take(i as int));
        }
        if i > 0 {
            out.append(sep);
        }
        out.append(parts[i].as_str());
        i = i + 1;
    }
    proof {
        assert(texts_of(parts@).take(parts.len() as int) =~= texts_of(parts@));
    }
    out
}

} // verus!
