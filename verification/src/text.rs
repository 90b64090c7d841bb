//! Small text operations shared by the other modules, stated over sequences
//! of characters.

use vstd::prelude::*;
use vstd::string::*;
use vstd::std_specs::iter::IteratorSpec;

verus! {

/// The characters that count as white space: the Unicode `White_Space` set.
pub open spec fn is_space(c: char) -> bool {
    ('\u{9}' <= c && c <= '\u{d}') || c == ' ' || c == '\u{85}' || c == '\u{a0}' || c
        == '\u{1680}' || ('\u{2000}' <= c && c <= '\u{200a}') || c == '\u{2028}' || c
        == '\u{2029}' || c == '\u{202f}' || c == '\u{205f}' || c == '\u{3000}'
}

/// `s` without its first character, if that is a double quote.
pub open spec fn without_leading_quote(s: Seq<char>) -> Seq<char> {
    if s.len() > 0 && s[0] == '"' {
        s.subrange(1, s.len() as int)
    } else {
        s
    }
}

/// `s` without its last character, if that is a double quote.
pub open spec fn without_trailing_quote(s: Seq<char>) -> Seq<char> {
    if s.len() > 0 && s[s.len() - 1] == '"' {
        s.subrange(0, s.len() - 1)
    } else {
        s
    }
}

/// `s` with at most one double quote taken from its front and then at most
/// one from its back.
pub open spec fn unquoted(s: Seq<char>) -> Seq<char> {
    without_trailing_quote(without_leading_quote(s))
}

/// A line is blank when it holds nothing but white space.
pub open spec fn blank(s: Seq<char>) -> bool {
    forall|i: int| 0 <= i < s.len() ==> is_space(#[trigger] s[i])
}

/// `s` without the white space at its end.
pub open spec fn trimmed_end(s: Seq<char>) -> Seq<char>
    decreases s.len(),
{
    if s.len() > 0 && is_space(s.last()) {
        trimmed_end(s.drop_last())
    } else {
        s
    }
}

/// `s` without the white space at its front.
pub open spec fn trimmed_start(s: Seq<char>) -> Seq<char>
    decreases s.len(),
{
    if s.len() > 0 && is_space(s[0]) {
        trimmed_start(s.drop_first())
    } else {
        s
    }
}

/// `s` without the white space at either end.
pub open spec fn trimmed(s: Seq<char>) -> Seq<char> {
    trimmed_end(trimmed_start(s))
}

/// Whether `c` is white space.
pub fn is_space_char(c: char) -> (r: bool)
    ensures
        r == is_space(c),
{
    ('\u{9}' <= c && c <= '\u{d}') || c == ' ' || c == '\u{85}' || c == '\u{a0}' || c
        == '\u{1680}' || ('\u{2000}' <= c && c <= '\u{200a}') || c == '\u{2028}' || c
        == '\u{2029}' || c == '\u{202f}' || c == '\u{205f}' || c == '\u{3000}'
}

/// The characters of `s`, in order.
pub fn chars_of(s: &str) -> (v: Vec<char>)
    ensures
        v@ == s@,
{
    let n = s.unicode_len();
    let mut v: Vec<char> = Vec::new();
    let mut it = s.chars();
    let mut i: usize = 0;
    while i < n
        invariant
            i <= n,
            n == s@.len(),
            v@ == s@.take(i as int),
            it.remaining() == s@.skip(i as int),
        decreases n - i,
    {
        broadcast use vstd::string::group_string_axioms;
        let next = it.next();
        match next {
            Some(c) => {
                v.push(c);
            },
            None => {},
        }
        i = i + 1;
    }
    v
}

/// Strips at most one double quote from the front of `raw` and at most one
/// from the back of what is left.
pub fn strip_quotes(raw: &str) -> (r: String)
    ensures
        r@ == unquoted(raw@),
{
    let n = raw.unicode_len();
    let mut from: usize = 0;
    let mut to: usize = n;
    if from < to && raw.get_char(0) == '"' {
        from = 1;
    }
    if from < to && raw.get_char(to - 1) == '"' {
        to = to - 1;
    }
    let part = raw.substring_char(from, to);
    let r = String::from_str(part);
    assert(r@ =~= unquoted(raw@));
    r
}

/// Whether `line` holds nothing but white space.
pub fn is_blank(line: &str) -> (r: bool)
    ensures
        r == blank(line@),
{
    let cs = chars_of(line);
    let mut i: usize = 0;
    while i < cs.len()
        invariant
            i <= cs.len(),
            cs@ == line@,
            forall|j: int| 0 <= j < i ==> is_space(#[trigger] line@[j]),
        decreases cs.len() - i,
    {
        if !is_space_char(cs[i]) {
            return false;
        }
        i = i + 1;
    }
    true
}

/// `trimmed_end` leaves alone a sequence that ends in something other than
/// white space, and looks through trailing white space.
pub proof fn trimmed_end_of_prefix(s: Seq<char>, to: int)
    requires
        0 <= to <= s.len(),
        forall|j: int| to <= j < s.len() ==> is_space(#[trigger] s[j]),
    ensures
        trimmed_end(s) == trimmed_end(s.take(to)),
    decreases s.len() - to,
{
    if to < s.len() {
        assert(is_space(s.last()));
        assert(s.drop_last().take(to) =~= s.take(to));
        trimmed_end_of_prefix(s.drop_last(), to);
    } else {
        assert(s.take(to) =~= s);
    }
}

/// `line` without the white space at its end.
pub fn trim_end(line: &str) -> (r: String)
    ensures
        r@ == trimmed_end(line@),
{
    let cs = chars_of(line);
    let mut to: usize = cs.len();
    while to > 0 && is_space_char(cs[to - 1])
        invariant
            to <= cs.len(),
            cs@ == line@,
            forall|j: int| to <= j < cs.len() ==> is_space(#[trigger] line@[j]),
        decreases to,
    {
        to = to - 1;
    }
    proof {
        trimmed_end_of_prefix(line@, to as int);
    }
    let part = line.substring_char(0, to);
    String::from_str(part)
}

/// `trimmed_start` is what follows the leading white space.
pub proof fn trimmed_start_is_suffix(s: Seq<char>, from: int)
    requires
        0 <= from <= s.len(),
        forall|j: int| 0 <= j < from ==> is_space(#[trigger] s[j]),
        from < s.len() ==> !is_space(s[from]),
    ensures
        trimmed_start(s) == s.skip(from),
    decreases from,
{
    if from > 0 {
        assert(is_space(s[0]));
        let rest = s.drop_first();
        assert forall|j: int| 0 <= j < from - 1 implies is_space(#[trigger] rest[j]) by {
            assert(rest[j] == s[j + 1]);
        }
        trimmed_start_is_suffix(rest, from - 1);
        assert(rest.skip(from - 1) =~= s.skip(from));
    } else {
        assert(s.skip(0) =~= s);
    }
}

/// `text` without the white space at either end.
pub fn trim(text: &str) -> (r: String)
    ensures
        r@ == trimmed(text@),
{
    let cs = chars_of(text);
    let mut from: usize = 0;
    while from < cs.len() && is_space_char(cs[from])
        invariant
            from <= cs.len(),
            cs@ == text@,
            forall|j: int| 0 <= j < from ==> is_space(#[trigger] text@[j]),
        decreases cs.len() - from,
    {
        from = from + 1;
    }
    let mut to: usize = cs.len();
    while to > from && is_space_char(cs[to - 1])
        invariant
            from <= to <= cs.len(),
            cs@ == text@,
            forall|j: int| to <= j < cs.len() ==> is_space(#[trigger] text@[j]),
        decreases to,
    {
        to = to - 1;
    }
    proof {
        let tail = text@.skip(from as int);
        trimmed_start_is_suffix(text@, from as int);
        assert forall|j: int| to - from <= j < tail.len() implies is_space(#[trigger] tail[j]) by {
            assert(tail[j] == text@[j + from]);
        }
        trimmed_end_of_prefix(tail, to - from);
        assert(tail.take(to - from) =~= text@.subrange(from as int, to as int));
        if to > from {
            assert(tail.take(to - from).last() == text@[to - 1]);
        }
    }
    let part = text.substring_char(from, to);
    String::from_str(part)
}

/// Where `c` first stands in `s`; the length of `s` where it does not.
pub open spec fn position(s: Seq<char>, c: char) -> nat
    decreases s.len(),
{
    if s.len() == 0 || s[0] == c {
        0
    } else {
        1 + position(s.drop_first(), c)
    }
}

/// Where `c` first stands in `cs` at or after `start`; the length of `cs`
/// where it does not.
pub fn find_from(cs: &Vec<char>, start: usize, c: char) -> (end: usize)
    requires
        start <= cs.len(),
    ensures
        start <= end <= cs.len(),
        end - start == position(cs@.skip(start as int), c),
        end < cs.len() ==> cs@[end as int] == c,
{
    let mut end: usize = start;
    while end < cs.len() && cs[end] != c
        invariant
            start <= end <= cs.len(),
            position(cs@.skip(start as int), c) == (end - start) + position(
                cs@.skip(end as int),
                c,
            ),
        decreases cs.len() - end,
    {
        assert(cs@.skip(end as int).drop_first() =~= cs@.skip(end + 1));
        assert(cs@.skip(end as int)[0] == cs@[end as int]);
        end = end + 1;
    }
    proof {
        if end < cs.len() {
            assert(cs@.skip(end as int)[0] == cs@[end as int]);
        }
    }
    end
}

/// How many characters stripping quotes takes from the front: one where
/// `s` starts with a double quote, else none.
pub open spec fn front_cut(s: Seq<char>) -> int {
    if s.len() > 0 && s[0] == '"' {
        1
    } else {
        0
    }
}

/// How many characters stripping quotes takes from the back: one where
/// what is left behind the front ends with a double quote, else none.
pub open spec fn back_cut(s: Seq<char>) -> int {
    if s.len() > front_cut(s) && s[s.len() - 1] == '"' {
        1
    } else {
        0
    }
}

/// Stripping quotes takes at most one character from either end, and
/// nothing from between.
pub proof fn unquoted_is_inner_part(s: Seq<char>)
    ensures
        0 <= front_cut(s) <= 1,
        0 <= back_cut(s) <= 1,
        front_cut(s) + back_cut(s) <= s.len(),
        unquoted(s) == s.subrange(front_cut(s), s.len() - back_cut(s)),
{
    assert(unquoted(s) =~= s.subrange(front_cut(s), s.len() - back_cut(s)));
}

/// The character that writes a decimal digit.
pub open spec fn digit_char(d: nat) -> char {
    if d == 0 {
        '0'
    } else if d == 1 {
        '1'
    } else if d == 2 {
        '2'
    } else if d == 3 {
        '3'
    } else if d == 4 {
        '4'
    } else if d == 5 {
        '5'
    } else if d == 6 {
        '6'
    } else if d == 7 {
        '7'
    } else if d == 8 {
        '8'
    } else {
        '9'
    }
}

/// A number in decimal digits, without leading zeros.
pub open spec fn decimal_text(n: nat) -> Seq<char>
    decreases n,
{
    if n < 10 {
        seq![digit_char(n)]
    } else {
        decimal_text(n / 10) + seq![digit_char(n % 10)]
    }
}

/// The text of one decimal digit.
fn digit_text(d: u16) -> (r: &'static str)
    requires
        d < 10,
    ensures
        r@ == seq![digit_char(d as nat)],
{
    proof {
        reveal_strlit("0");
        reveal_strlit("1");
        reveal_strlit("2");
        reveal_strlit("3");
        reveal_strlit("4");
        reveal_strlit("5");
        reveal_strlit("6");
        reveal_strlit("7");
        reveal_strlit("8");
        reveal_strlit("9");
    }
    let r = if d == 0 {
        "0"
    } else if d == 1 {
        "1"
    } else if d == 2 {
        "2"
    } else if d == 3 {
        "3"
    } else if d == 4 {
        "4"
    } else if d == 5 {
        "5"
    } else if d == 6 {
        "6"
    } else if d == 7 {
        "7"
    } else if d == 8 {
        "8"
    } else {
        "9"
    };
    assert(r@ =~= seq![digit_char(d as nat)]);
    r
}

/// Writes `n` in decimal digits at the end of `out`.
pub fn append_decimal(out: &mut String, n: u16)
    ensures
        final(out)@ == old(out)@ + decimal_text(n as nat),
    decreases n,
{
    if n >= 10 {
        append_decimal(out, n / 10);
    }
    out.append(digit_text(n % 10));
    assert(out@ =~= old(out)@ + decimal_text(n as nat));
}

} // verus!
