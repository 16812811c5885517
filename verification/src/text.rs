//! Text operations that the parsers and message builders share, stated over
//! sequences of characters.

use vstd::prelude::*;
use vstd::utf8::{decode_utf8, encode_utf8, encode_utf8_decode_utf8};

verus! {

/// Index of the first occurrence of `c` in `s`, if there is one.
pub open spec fn first_index_of(s: Seq<char>, c: char) -> Option<int>
    decreases s.len(),
{
    if s.len() == 0 {
        None
    } else if s[0] == c {
        Some(0)
    } else {
        match first_index_of(s.drop_first(), c) {
            Some(i) => Some(i + 1),
            None => None,
        }
    }
}

/// `needle` occurs in `hay` as a contiguous run of characters.
pub open spec fn occurs_in(needle: Seq<char>, hay: Seq<char>) -> bool {
    exists|i: int| occurs_at(needle, hay, i)
}

/// `needle` occurs in `hay` at offset `i`.
pub open spec fn occurs_at(needle: Seq<char>, hay: Seq<char>, i: int) -> bool {
    0 <= i && i + needle.len() <= hay.len() && #[trigger] hay.subrange(i, i + needle.len())
        == needle
}

/// The upper-case form of an ASCII lower-case letter; any other character
/// is left as it is.
pub open spec fn ascii_upper(c: char) -> char {
    if 'a' <= c && c <= 'z' {
        ((c as u8 - 32) as u8) as char
    } else {
        c
    }
}

/// `s` with every ASCII lower-case letter replaced by its upper-case form.
pub open spec fn ascii_uppercase(s: Seq<char>) -> Seq<char> {
    Seq::new(s.len(), |i: int| ascii_upper(s[i]))
}

/// `s` without the run of `c` at its end.
pub open spec fn without_trailing(s: Seq<char>, c: char) -> Seq<char>
    decreases s.len(),
{
    if s.len() > 0 && s.last() == c {
        without_trailing(s.drop_last(), c)
    } else {
        s
    }
}

/// What `str::trim` leaves of a text: the text without the white space at
/// its two ends, white space being what Unicode's `White_Space` property says.
pub uninterp spec fn trimmed(s: Seq<char>) -> Seq<char>;

/// `str::starts_with` for a string pattern: whether `prefix` is an initial
/// part of `s`.
#[verifier::external_body]
pub(crate) fn starts_with(s: &str, prefix: &str) -> (r: bool)
    ensures
        r == prefix@.is_prefix_of(s@),
{
    s.starts_with(prefix)
}

/// `str::strip_prefix` for a string pattern: the rest of `s` after `prefix`
/// where `s` starts with it, and nothing where it does not.
#[verifier::external_body]
pub(crate) fn strip_prefix<'a>(s: &'a str, prefix: &str) -> (r: Option<&'a str>)
    ensures
        (r is Some) == prefix@.is_prefix_of(s@),
        r matches Some(rest) ==> rest@ == s@.skip(prefix@.len() as int),
{
    s.strip_prefix(prefix)
}

/// `str::split_once` for a character: the parts of `s` before and after the
/// first `delimiter`, and nothing where `s` holds none.
#[verifier::external_body]
pub(crate) fn split_once<'a>(s: &'a str, delimiter: char) -> (r: Option<(&'a str, &'a str)>)
    ensures
        match r {
            Some((head, tail)) => {
                &&& first_index_of(s@, delimiter) == Some(head@.len() as int)
                &&& head@ == s@.take(head@.len() as int)
                &&& tail@ == s@.skip(head@.len() as int + 1)
            },
            None => first_index_of(s@, delimiter) is None,
        },
{
    s.split_once(delimiter)
}

/// `str::contains` for a string pattern: whether `needle` occurs in `s`.
#[verifier::external_body]
pub(crate) fn contains(s: &str, needle: &str) -> (r: bool)
    ensures
        r == occurs_in(needle@, s@),
{
    s.contains(needle)
}

/// `str::to_ascii_uppercase`: a copy of `s` in which the ASCII letters `a`
/// to `z` are replaced by `A` to `Z`.
#[verifier::external_body]
pub(crate) fn to_ascii_uppercase(s: &str) -> (r: String)
    ensures
        r@ == ascii_uppercase(s@),
{
    s.to_ascii_uppercase()
}

/// `str::trim_end_matches` for a character: `s` without the run of `c` at
/// its end.
#[verifier::external_body]
pub(crate) fn trim_end_matches<'a>(s: &'a str, c: char) -> (r: &'a str)
    ensures
        r@ == without_trailing(s@, c),
{
    s.trim_end_matches(c)
}

/// `str::trim`: `s` without the white space at its two ends.
#[verifier::external_body]
pub(crate) fn trim<'a>(s: &'a str) -> (r: &'a str)
    ensures
        r@ == trimmed(s@),
{
    s.trim()
}

/// Whether two texts hold the same characters, told by their bytes.
pub fn same_text(a: &str, b: &str) -> (r: bool)
    ensures
        r == (a@ == b@),
{
    let x = a.as_bytes();
    let y = b.as_bytes();
    proof {
        encode_utf8_decode_utf8(a@);
        encode_utf8_decode_utf8(b@);
    }
    if x.len() != y.len() {
        return false;
    }
    let mut i: usize = 0;
    while i < x.len()
        invariant
            i <= x.len(),
            x@.len() == y@.len(),
            x@ == encode_utf8(a@),
            y@ == encode_utf8(b@),
            decode_utf8(encode_utf8(a@)) == a@,
            decode_utf8(encode_utf8(b@)) == b@,
            forall|j: int| 0 <= j < i ==> x@[j] == y@[j],
        decreases x.len() - i,
    {
        if x[i] != y[i] {
            return false;
        }
        i += 1;
    }
    assert(x@ =~= y@);
    true
}

/// Whether `s` holds nothing but white space.
pub fn is_blank(s: &str) -> (r: bool)
    ensures
        r == (trimmed(s@).len() == 0),
{
    trim(s).is_empty()
}

/// The concatenation of two texts.
pub fn join2(a: &str, b: &str) -> (r: String)
    ensures
        r@ == a@ + b@,
{
    let mut out = a.to_owned();
    out.append(b);
    out
}

/// The character of a decimal digit.
pub open spec fn digit_char(d: nat) -> char {
    if d == 0 {
        '0'
    } else if d == 1 {
        '1'
    } else if d == 2 {
        '2'
    } else if d == 3 {
        '3'
    } else if d == 4 {
        '4'
    } else if d == 5 {
        '5'
    } else if d == 6 {
        '6'
    } else if d == 7 {
        '7'
    } else if d == 8 {
        '8'
    } else {
        '9'
    }
}

/// A natural number in decimal, without leading zeros.
pub open spec fn decimal_text(n: nat) -> Seq<char>
    decreases n,
{
    if n < 10 {
        seq![digit_char(n)]
    } else {
        decimal_text(n / 10).push(digit_char(n % 10))
    }
}

fn digit_text(d: u64) -> (r: &'static str)
    requires
        d < 10,
    ensures
        r@ == seq![digit_char(d as nat)],
{
    proof {
        reveal_strlit("0");
        reveal_strlit("1");
        reveal_strlit("2");
        reveal_strlit("3");
        reveal_strlit("4");
        reveal_strlit("5");
        reveal_strlit("6");
        reveal_strlit("7");
        reveal_strlit("8");
        reveal_strlit("9");
    }
    let r = if d == 0 {
        "0"
    } else if d == 1 {
        "1"
    } else if d == 2 {
        "2"
    } else if d == 3 {
        "3"
    } else if d == 4 {
        "4"
    } else if d == 5 {
        "5"
    } else if d == 6 {
        "6"
    } else if d == 7 {
        "7"
    } else if d == 8 {
        "8"
    } else {
        "9"
    };
    assert(r@ =~= seq![digit_char(d as nat)]);
    r
}

/// Writes a number in decimal.
pub fn decimal(n: u64) -> (r: String)
    ensures
        r@ == decimal_text(n as nat),
    decreases n,
{
    if n < 10 {
        digit_text(n).to_owned()
    } else {
        let mut out = decimal(n / 10);
        out.append(digit_text(n % 10));
        assert(out@ =~= decimal_text(n as nat));
        out
    }
}

/// First-occurrence facts: the index that [`first_index_of`] gives lies in
/// the text, holds `c`, and nothing before it does; where it gives none,
/// `c` does not occur.
pub proof fn first_index_is_first(s: Seq<char>, c: char)
    ensures
        match first_index_of(s, c) {
            Some(i) => 0 <= i < s.len() && s[i] == c && forall|j: int| 0 <= j < i ==> s[j] != c,
            None => forall|j: int| 0 <= j < s.len() ==> s[j] != c,
        },
    decreases s.len(),
{
    if s.len() > 0 && s[0] != c {
        first_index_is_first(s.drop_first(), c);
        let rest = s.drop_first();
        match first_index_of(rest, c) {
            Some(i) => {
                assert(rest[i] == s[i + 1]);
                assert forall|j: int| 0 <= j < i + 1 implies s[j] != c by {
                    if j > 0 {
                        assert(rest[j - 1] == s[j]);
                    }
                }
            },
            None => {
                assert forall|j: int| 0 <= j < s.len() implies s[j] != c by {
                    if j > 0 {
                        assert(rest[j - 1] == s[j]);
                    }
                }
            },
        }
    }
}

/// A first occurrence stays the first when more text follows.
pub proof fn first_index_in_longer(s: Seq<char>, more: Seq<char>, c: char)
    requires
        first_index_of(s, c) is Some,
    ensures
        first_index_of(s + more, c) == first_index_of(s, c),
    decreases s.len(),
{
    if s.len() > 0 {
        assert((s + more)[0] == s[0]);
        assert((s + more).drop_first() =~= s.drop_first() + more);
        if s[0] != c {
            first_index_in_longer(s.drop_first(), more, c);
        }
    }
}

/// `s` up to its first `c`, or all of it where it holds none.
pub open spec fn up_to(s: Seq<char>, c: char) -> Seq<char> {
    match first_index_of(s, c) {
        Some(i) => s.take(i),
        None => s,
    }
}

/// What follows the last `c` of `s`, or all of it where it holds none.
pub open spec fn after_last(s: Seq<char>, c: char) -> Seq<char>
    decreases s.len(),
{
    match first_index_of(s, c) {
        Some(i) => if 0 <= i < s.len() {
            after_last(s.skip(i + 1), c)
        } else {
            s
        },
        None => s,
    }
}

/// The part of a text before its first `c`.
pub fn before_first<'a>(s: &'a str, c: char) -> (r: &'a str)
    ensures
        r@ == up_to(s@, c),
{
    match split_once(s, c) {
        Some((head, _)) => head,
        None => s,
    }
}

/// The part of a text after its last `c`.
pub fn after_last_of<'a>(s: &'a str, c: char) -> (r: &'a str)
    ensures
        r@ == after_last(s@, c),
{
    let mut rest: &str = s;
    let mut more = true;
    while more
        invariant
            after_last(rest@, c) == after_last(s@, c),
            !more ==> first_index_of(rest@, c) is None,
        decreases rest@.len() + (if more { 1nat } else { 0nat }),
    {
        match split_once(rest, c) {
            Some((_, tail)) => {
                proof {
                    first_index_is_first(rest@, c);
                }
                rest = tail;
            },
            None => {
                more = false;
            },
        }
    }
    rest
}

} // verus!
