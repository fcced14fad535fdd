//! Small helpers on text, stated over sequences of characters.

use vstd::prelude::*;

verus! {

/// The decimal digit that stands for `d`, for `d` below ten.
pub open spec fn digit(d: nat) -> char {
    if d == 0 {
        '0'
    } else if d == 1 {
        '1'
    } else if d == 2 {
        '2'
    } else if d == 3 {
        '3'
    } else if d == 4 {
        '4'
    } else if d == 5 {
        '5'
    } else if d == 6 {
        '6'
    } else if d == 7 {
        '7'
    } else if d == 8 {
        '8'
    } else {
        '9'
    }
}

/// `n` written in base ten, without leading zeros.
pub open spec fn decimal_digits(n: nat) -> Seq<char>
    decreases n,
{
    if n < 10 {
        seq![digit(n)]
    } else {
        decimal_digits(n / 10).push(digit(n % 10))
    }
}

/// A `.` occurs in `path` after its last `/`.
pub open spec fn has_extension(path: Seq<char>) -> bool
    decreases path.len(),
{
    if path.len() == 0 {
        false
    } else if path.last() == '/' {
        false
    } else if path.last() == '.' {
        true
    } else {
        has_extension(path.drop_last())
    }
}

/// `text` with every occurrence of `marker` replaced by `with`, found from left to right and
/// without overlap. An empty `marker` occurs nowhere.
pub open spec fn replaced(text: Seq<char>, marker: Seq<char>, with: Seq<char>) -> Seq<char>
    decreases text.len(),
{
    if marker.len() == 0 || text.len() < marker.len() {
        text
    } else if marker.is_prefix_of(text) {
        with + replaced(text.skip(marker.len() as int), marker, with)
    } else {
        text.take(1) + replaced(text.skip(1), marker, with)
    }
}

/// The characters of `text`, one by one.
pub fn chars_of(text: &str) -> (chars: Vec<char>)
    ensures
        chars@ == text@,
{
    let mut chars: Vec<char> = Vec::new();
    for c in it: text.chars()
        invariant
            it.seq() == text@,
            chars@ == text@.take(it.index() as int),
    {
        chars.push(c);
    }
    chars
}

/// Whether two texts hold the same characters.
pub fn str_eq(left: &str, right: &str) -> (same: bool)
    ensures
        same == (left@ == right@),
{
    let l = left.to_owned();
    let r = right.to_owned();
    l == r
}

/// Whether `part` stands in `whole` at position `at`.
fn matches_at(whole: &Vec<char>, at: usize, part: &Vec<char>) -> (found: bool)
    requires
        at + part.len() <= whole.len(),
    ensures
        found == (whole@.subrange(at as int, at + part.len()) == part@),
{
    let mut i: usize = 0;
    while i < part.len()
        invariant
            i <= part.len(),
            at + part.len() <= whole.len(),
            forall|j: int| 0 <= j < i ==> whole@[at + j] == part@[j],
        decreases part.len() - i,
    {
        if whole[at + i] != part[i] {
            return false;
        }
        i += 1;
    }
    assert(whole@.subrange(at as int, at + part.len()) =~= part@);
    true
}

/// Whether `text` begins with `prefix`.
pub fn starts_with(text: &str, prefix: &str) -> (found: bool)
    ensures
        found == prefix@.is_prefix_of(text@),
{
    let whole = chars_of(text);
    let part = chars_of(prefix);
    if part.len() > whole.len() {
        return false;
    }
    matches_at(&whole, 0, &part)
}

/// Whether `text` ends with `suffix`.
pub fn ends_with(text: &str, suffix: &str) -> (found: bool)
    ensures
        found == suffix@.is_suffix_of(text@),
{
    let whole = chars_of(text);
    let part = chars_of(suffix);
    if part.len() > whole.len() {
        return false;
    }
    matches_at(&whole, whole.len() - part.len(), &part)
}

/// Whether the final segment of `path`, the part after its last `/`, holds a `.`.
pub fn final_segment_has_dot(path: &str) -> (found: bool)
    ensures
        found == has_extension(path@),
{
    let mut found = false;
    for c in it: path.chars()
        invariant
            it.seq() == path@,
            found == has_extension(path@.take(it.index() as int)),
    {
        assert(path@.take(it.index() + 1).drop_last() == path@.take(it.index() as int));
        if c == '/' {
            found = false;
        } else if c == '.' {
            found = true;
        }
    }
    assert(path@.take(path@.len() as int) == path@);
    found
}

/// The text of one decimal digit.
fn digit_str(d: usize) -> (text: &'static str)
    requires
        d < 10,
    ensures
        text@ == seq![digit(d as nat)],
{
    proof {
        reveal_strlit("0");
        reveal_strlit("1");
        reveal_strlit("2");
        reveal_strlit("3");
        reveal_strlit("4");
        reveal_strlit("5");
        reveal_strlit("6");
        reveal_strlit("7");
        reveal_strlit("8");
        reveal_strlit("9");
    }
    let text = if d == 0 {
        "0"
    } else if d == 1 {
        "1"
    } else if d == 2 {
        "2"
    } else if d == 3 {
        "3"
    } else if d == 4 {
        "4"
    } else if d == 5 {
        "5"
    } else if d == 6 {
        "6"
    } else if d == 7 {
        "7"
    } else if d == 8 {
        "8"
    } else {
        "9"
    };
    text
}

/// `n` in base ten.
pub fn decimal(n: usize) -> (text: String)
    ensures
        text@ == decimal_digits(n as nat),
    decreases n,
{
    if n < 10 {
        digit_str(n).to_owned()
    } else {
        let mut text = decimal(n / 10);
        text.append(digit_str(n % 10));
        text
    }
}

/// Skipping past a stretch that holds no occurrence leaves the replacement of the rest to do.
proof fn lemma_replaced_step(text: Seq<char>, marker: Seq<char>, with: Seq<char>, at: int)
    requires
        marker.len() > 0,
        0 <= at,
        at + marker.len() <= text.len(),
    ensures
        replaced(text.skip(at), marker, with) == if text.subrange(at, at + marker.len())
            == marker {
            with + replaced(text.skip(at + marker.len()), marker, with)
        } else {
            text.subrange(at, at + 1) + replaced(text.skip(at + 1), marker, with)
        },
{
    let rest = text.skip(at);
    assert(rest.subrange(0, marker.len() as int) =~= text.subrange(at, at + marker.len()));
    assert(rest.skip(marker.len() as int) =~= text.skip(at + marker.len()));
    assert(rest.skip(1) =~= text.skip(at + 1));
}

/// `text` with every occurrence of `marker` replaced by `with`.
pub fn replace_all(text: &str, marker: &str, with: &str) -> (out: String)
    ensures
        out@ == replaced(text@, marker@, with@),
{
    let whole = chars_of(text);
    let part = chars_of(marker);
    if part.len() == 0 || whole.len() < part.len() {
        return text.to_owned();
    }
    let mut out = String::new();
    let mut start: usize = 0;
    let mut at: usize = 0;
    assert(text@.skip(0) == text@);
    while part.len() <= whole.len() - at
        invariant
            whole@ == text@,
            part@ == marker@,
            part.len() > 0,
            start <= at <= whole.len(),
            replaced(text@, marker@, with@) == out@ + text@.subrange(start as int, at as int)
                + replaced(text@.skip(at as int), marker@, with@),
        decreases whole.len() - at,
    {
        proof {
            lemma_replaced_step(text@, marker@, with@, at as int);
        }
        if matches_at(&whole, at, &part) {
            out.append(text.substring_char(start, at));
            out.append(with);
            at += part.len();
            start = at;
        } else {
            at += 1;
        }
    }
    out.append(text.substring_char(start, whole.len()));
    out
}

} // verus!
