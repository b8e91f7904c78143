//! Text helpers: decimal rendering and substring search over characters.

use humansize::{file_size_opts, FileSize};
use vstd::prelude::*;
use vstd::string::StringExecFns;

verus! {

/// The character of the decimal digit `d`.
pub open spec fn digit_char(d: int) -> char {
    if d == 0 {
        '0'
    } else if d == 1 {
        '1'
    } else if d == 2 {
        '2'
    } else if d == 3 {
        '3'
    } else if d == 4 {
        '4'
    } else if d == 5 {
        '5'
    } else if d == 6 {
        '6'
    } else if d == 7 {
        '7'
    } else if d == 8 {
        '8'
    } else {
        '9'
    }
}

/// The decimal digits of `n`, most significant first, without leading zeros.
pub open spec fn decimal_digits(n: nat) -> Seq<char>
    decreases n,
{
    if n < 10 {
        seq![digit_char(n as int)]
    } else {
        decimal_digits(n / 10).push(digit_char((n % 10) as int))
    }
}

/// The decimal text of `i`, with a leading `-` if it is negative.
pub open spec fn decimal(i: int) -> Seq<char> {
    if i < 0 {
        seq!['-'] + decimal_digits((-i) as nat)
    } else {
        decimal_digits(i as nat)
    }
}

/// The decimal text of a number is not empty.
pub proof fn lemma_decimal_is_not_empty(i: int)
    ensures
        decimal(i).len() > 0,
{
    if i < 0 {
        lemma_digits_are_not_empty((-i) as nat);
    } else {
        lemma_digits_are_not_empty(i as nat);
    }
}

proof fn lemma_digits_are_not_empty(n: nat)
    ensures
        decimal_digits(n).len() > 0,
    decreases n,
{
    if n >= 10 {
        lemma_digits_are_not_empty(n / 10);
    }
}

/// Whether `needle` stands in `hay` at position `at`.
pub open spec fn occurs_at(hay: Seq<char>, needle: Seq<char>, at: int) -> bool {
    &&& 0 <= at
    &&& at + needle.len() <= hay.len()
    &&& hay.subrange(at, at + needle.len()) == needle
}

/// Whether `needle` occurs in `hay` as a run of consecutive characters.
pub open spec fn occurs_in(hay: Seq<char>, needle: Seq<char>) -> bool {
    exists|at: int| occurs_at(hay, needle, at)
}

fn digit_text(d: u8) -> (text: &'static str)
    requires
        d < 10,
    ensures
        text@ == seq![digit_char(d as int)],
{
    proof {
        reveal_strlit("0");
        reveal_strlit("1");
        reveal_strlit("2");
        reveal_strlit("3");
        reveal_strlit("4");
        reveal_strlit("5");
        reveal_strlit("6");
        reveal_strlit("7");
        reveal_strlit("8");
        reveal_strlit("9");
    }
    let text = if d == 0 {
        "0"
    } else if d == 1 {
        "1"
    } else if d == 2 {
        "2"
    } else if d == 3 {
        "3"
    } else if d == 4 {
        "4"
    } else if d == 5 {
        "5"
    } else if d == 6 {
        "6"
    } else if d == 7 {
        "7"
    } else if d == 8 {
        "8"
    } else {
        "9"
    };
    assert(text@ =~= seq![digit_char(d as int)]);
    text
}

/// Appends the decimal digits of `value` to `out`.
pub fn push_decimal_digits(out: &mut String, value: u64)
    ensures
        final(out)@ == old(out)@ + decimal_digits(value as nat),
    decreases value,
{
    if value >= 10 {
        push_decimal_digits(out, value / 10);
    }
    out.append(digit_text((value % 10) as u8));
    assert(out@ =~= old(out)@ + decimal_digits(value as nat));
}

/// Appends the decimal text of `value` to `out`.
pub fn push_decimal(out: &mut String, value: i64)
    ensures
        final(out)@ == old(out)@ + decimal(value as int),
{
    if value < 0 {
        proof {
            reveal_strlit("-");
        }
        out.append("-");
        let magnitude: u64 = if value == i64::MIN {
            0x8000_0000_0000_0000u64
        } else {
            (-value) as u64
        };
        push_decimal_digits(out, magnitude);
        assert(out@ =~= old(out)@ + decimal(value as int));
    } else {
        push_decimal_digits(out, value as u64);
    }
}

/// The decimal text of `value`.
pub fn decimal_text(value: i64) -> (text: String)
    ensures
        text@ == decimal(value as int),
{
    let mut text = String::new();
    push_decimal(&mut text, value);
    assert(text@ =~= decimal(value as int));
    text
}

/// The characters of `s`.
pub fn chars_of(s: &str) -> (chars: Vec<char>)
    ensures
        chars@ == s@,
{
    let mut chars: Vec<char> = Vec::new();
    for c in it: s.chars()
        invariant
            it.seq() == s@,
            chars@ =~= s@.take(it.index()),
    {
        chars.push(c);
    }
    assert(s@.take(s@.len() as int) =~= s@);
    chars
}

fn matches_at(hay: &Vec<char>, needle: &Vec<char>, at: usize) -> (found: bool)
    requires
        at + needle.len() <= hay.len(),
    ensures
        found == occurs_at(hay@, needle@, at as int),
{
    let mut offset: usize = 0;
    while offset < needle.len()
        invariant
            at + needle.len() <= hay.len(),
            0 <= offset <= needle.len(),
            forall|j: int| 0 <= j < offset ==> hay[at + j] == needle[j],
        decreases needle.len() - offset,
    {
        if hay[at + offset] != needle[offset] {
            proof {
                let run = hay@.subrange(at as int, at + needle.len());
                assert(run[offset as int] == hay[at + offset]);
            }
            return false;
        }
        offset = offset + 1;
    }
    assert(hay@.subrange(at as int, at + needle.len()) =~= needle@);
    true
}

/// Whether `needle` occurs in `hay`.
pub fn contains(hay: &str, needle: &str) -> (found: bool)
    ensures
        found == occurs_in(hay@, needle@),
{
    let hay_chars = chars_of(hay);
    let needle_chars = chars_of(needle);
    if needle_chars.len() > hay_chars.len() {
        assert forall|at: int| !occurs_at(hay@, needle@, at) by {}
        return false;
    }
    if needle_chars.len() == 0 {
        assert(hay@.subrange(0, 0) =~= needle@);
        assert(occurs_at(hay@, needle@, 0));
        return true;
    }
    let last = hay_chars.len() - needle_chars.len();
    let mut at: usize = 0;
    while at <= last
        invariant
            hay_chars@ == hay@,
            needle_chars.len() >= 1,
            needle_chars@ == needle@,
            last == hay_chars.len() - needle_chars.len(),
            0 <= at <= last + 1,
            forall|before: int| 0 <= before < at ==> !occurs_at(hay@, needle@, before),
        decreases last + 1 - at,
    {
        if matches_at(&hay_chars, &needle_chars, at) {
            return true;
        }
        at = at + 1;
    }
    assert forall|at: int| !occurs_at(hay@, needle@, at) by {}
    false
}

/// The text that `humansize` gives for a number of bytes in binary units
/// (`B`, `KiB`, `MiB`, ...), with at most two decimal places.
pub uninterp spec fn binary_size_text(bytes: i64) -> Seq<char>;

/// `humansize::FileSize::file_size` on an `i64` with the options
/// `file_size_opts::BINARY`. It refuses a negative number and formats every
/// other one; the text depends on the number alone.
#[verifier::external_body]
pub(crate) fn binary_size(bytes: i64) -> (text: Option<String>)
    ensures
        text is Some <==> bytes >= 0,
        text matches Some(t) ==> t@ == binary_size_text(bytes),
{
    bytes.file_size(file_size_opts::BINARY).ok()
}

} // verus!
