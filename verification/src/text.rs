//! Decimal rendering and reading, and the string building used by the match log and the
//! deck builder.

use vstd::prelude::*;

verus! {

/// The text of one decimal digit.
pub open spec fn digit_text(d: int) -> Seq<char> {
    if d == 0 {
        "0"@
    } else if d == 1 {
        "1"@
    } else if d == 2 {
        "2"@
    } else if d == 3 {
        "3"@
    } else if d == 4 {
        "4"@
    } else if d == 5 {
        "5"@
    } else if d == 6 {
        "6"@
    } else if d == 7 {
        "7"@
    } else if d == 8 {
        "8"@
    } else {
        "9"@
    }
}

/// The decimal text of a natural number, most significant digit first, without leading zeros.
pub open spec fn natural_text(n: nat) -> Seq<char>
    decreases n,
{
    if n < 10 {
        digit_text(n as int)
    } else {
        natural_text(n / 10) + digit_text((n % 10) as int)
    }
}

/// The decimal text of an integer, as `{}` formats it.
pub open spec fn integer_text(n: int) -> Seq<char> {
    if n < 0 {
        "-"@ + natural_text((-n) as nat)
    } else {
        natural_text(n as nat)
    }
}

fn digit_str(d: u64) -> (r: &'static str)
    requires
        d < 10,
    ensures
        r@ == digit_text(d as int),
{
    if d == 0 {
        "0"
    } else if d == 1 {
        "1"
    } else if d == 2 {
        "2"
    } else if d == 3 {
        "3"
    } else if d == 4 {
        "4"
    } else if d == 5 {
        "5"
    } else if d == 6 {
        "6"
    } else if d == 7 {
        "7"
    } else if d == 8 {
        "8"
    } else {
        "9"
    }
}

/// Appends the decimal text of `n` to `out`.
pub fn push_natural(out: &mut String, n: u64)
    ensures
        final(out)@ == old(out)@ + natural_text(n as nat),
    decreases n,
{
    if n >= 10 {
        push_natural(out, n / 10);
        out.append(digit_str(n % 10));
        proof {
            assert(final(out)@ =~= old(out)@ + natural_text(n as nat));
        }
    } else {
        out.append(digit_str(n));
    }
}

/// Appends the decimal text of a signed integer to `out`.
pub fn push_integer(out: &mut String, n: i64)
    ensures
        final(out)@ == old(out)@ + integer_text(n as int),
{
    if n < 0 {
        out.append("-");
        let magnitude: u64 = ((-(n + 1)) as u64) + 1;
        push_natural(out, magnitude);
        proof {
            assert(final(out)@ =~= old(out)@ + integer_text(n as int));
        }
    } else {
        push_natural(out, n as u64);
    }
}

/// The decimal text of a signed integer.
pub fn integer_to_text(n: i64) -> (r: String)
    ensures
        r@ == integer_text(n as int),
{
    let mut out = String::new();
    push_integer(&mut out, n);
    proof {
        assert(out@ =~= integer_text(n as int));
    }
    out
}

/// A copy of a string with the same contents.
pub fn copy_text(s: &String) -> (r: String)
    ensures
        r@ == s@,
        r == *s,
{
    s.clone()
}

/// A copy of a list of strings.
pub fn copy_texts(v: &Vec<String>) -> (r: Vec<String>)
    ensures
        r@ == v@,
{
    let mut out: Vec<String> = Vec::new();
    let mut i: usize = 0;
    while i < v.len()
        invariant
            i <= v.len(),
            out@ == v@.subrange(0, i as int),
        decreases v.len() - i,
    {
        out.push(v[i].clone());
        i += 1;
        proof {
            assert(out@ =~= v@.subrange(0, i as int));
        }
    }
    proof {
        assert(v@.subrange(0, v.len() as int) =~= v@);
    }
    out
}

/// The text of each string of a list.
pub open spec fn texts(v: Seq<String>) -> Seq<Seq<char>> {
    v.map_values(|s: String| s@)
}

/// The characters that `char::is_whitespace` accepts: those with the Unicode White_Space
/// property.
pub open spec fn is_white_space(c: char) -> bool {
    ||| '\u{9}' <= c <= '\u{d}'
    ||| c == ' '
    ||| c == '\u{85}'
    ||| c == '\u{a0}'
    ||| c == '\u{1680}'
    ||| '\u{2000}' <= c <= '\u{200a}'
    ||| c == '\u{2028}'
    ||| c == '\u{2029}'
    ||| c == '\u{202f}'
    ||| c == '\u{205f}'
    ||| c == '\u{3000}'
}

/// Whether a character has the Unicode White_Space property.
pub fn white_space(c: char) -> (r: bool)
    ensures
        r == is_white_space(c),
{
    ('\u{9}' <= c && c <= '\u{d}') || c == ' ' || c == '\u{85}' || c == '\u{a0}' || c == '\u{1680}'
        || ('\u{2000}' <= c && c <= '\u{200a}') || c == '\u{2028}' || c == '\u{2029}' || c == '\u{202f}'
        || c == '\u{205f}' || c == '\u{3000}'
}

/// A text is blank when trimming it leaves nothing: every character is white space.
pub open spec fn is_blank(s: Seq<char>) -> bool {
    forall|i: int| 0 <= i < s.len() ==> is_white_space(#[trigger] s[i])
}

/// Whether the text is empty once trimmed.
pub fn blank(s: &str) -> (r: bool)
    ensures
        r == is_blank(s@),
{
    broadcast use vstd::string::group_string_axioms;
    let mut all: bool = true;
    for c in it: s.chars()
        invariant
            it.seq() == s@,
            all == (forall|j: int| 0 <= j < it.index() ==> is_white_space(#[trigger] s@[j])),
    {
        if !white_space(c) {
            all = false;
        }
    }
    all
}

/// Whether two strings hold the same characters.
pub fn same_text(a: &str, b: &str) -> (r: bool)
    ensures
        r == (a@ == b@),
{
    let x = a.to_owned();
    let y = b.to_owned();
    x == y
}


/// Whether the character is an ASCII decimal digit.
pub open spec fn is_digit(c: char) -> bool {
    '0' <= c <= '9'
}

/// The value of a run of decimal digits, most significant first.
pub open spec fn digits_value(d: Seq<char>) -> nat
    decreases d.len(),
{
    if d.len() == 0 {
        0
    } else {
        digits_value(d.drop_last()) * 10 + ((d.last() as int) - ('0' as int)) as nat
    }
}

/// A run of digits is worth at least as much as each of its prefixes.
pub proof fn lemma_digits_value_prefix(d: Seq<char>, k: int)
    requires
        0 <= k <= d.len(),
        forall|i: int| 0 <= i < d.len() ==> is_digit(#[trigger] d[i]),
    ensures
        digits_value(d.take(k)) <= digits_value(d),
    decreases d.len(),
{
    if k < d.len() {
        assert(d.drop_last().take(k) =~= d.take(k));
        lemma_digits_value_prefix(d.drop_last(), k);
    } else {
        assert(d.take(k) =~= d);
    }
}

/// The number `u32::from_str` reads from a text: an optional `+`, then at least one ASCII
/// digit and nothing else, within the range of `u32`.
pub open spec fn u32_from_text(s: Seq<char>) -> Option<u32> {
    let d = unsigned_digits(s);
    if d.len() > 0 && all_digits(d) && digits_value(d) <= u32::MAX {
        Some(digits_value(d) as u32)
    } else {
        None
    }
}

/// The text after an optional leading `+`.
pub open spec fn unsigned_digits(s: Seq<char>) -> Seq<char> {
    if s.len() > 0 && s[0] == '+' { s.drop_first() } else { s }
}

/// Whether every character is an ASCII digit.
pub open spec fn all_digits(d: Seq<char>) -> bool {
    forall|i: int| 0 <= i < d.len() ==> is_digit(#[trigger] d[i])
}

/// Reads a `u32` from a text as `u32::from_str` does.
pub fn parse_u32(s: &str) -> (r: Option<u32>)
    ensures
        r == u32_from_text(s@),
{
    broadcast use vstd::string::group_string_axioms;

    let ghost d = unsigned_digits(s@);
    let mut value: u64 = 0;
    let ghost mut seen: int = 0;
    let mut any_digit: bool = false;
    let mut signed: bool = false;
    let mut first: bool = true;
    for c in it: s.chars()
        invariant
            it.seq() == s@,
            first == (it.index() == 0),
            signed == (s@.len() > 0 && s@[0] == '+' && it.index() > 0),
            d == unsigned_digits(s@),
            seen == it.index() - if signed { 1int } else { 0int },
            any_digit == (seen > 0),
            0 <= seen <= d.len(),
            forall|i: int| 0 <= i < seen ==> is_digit(#[trigger] d[i]),
            value == digits_value(d.take(seen)),
            value <= u32::MAX,
    {
        if first && c == '+' {
            signed = true;
            first = false;
        } else {
            first = false;
            proof {
                assert(d[seen] == c);
            }
            if c < '0' || c > '9' {
                proof {
                    assert(it.index() < s@.len());
                    assert(seen < d.len());
                    assert(!is_digit(d[seen]));
                    assert(!all_digits(d));
                }
                return None;
            }
            let digit: u64 = (c as u64) - ('0' as u64);
            let next: u64 = value * 10 + digit;
            proof {
                assert(d.take(seen + 1).drop_last() =~= d.take(seen));
                assert(d.take(seen + 1).last() == c);
                assert(digits_value(d.take(seen + 1)) == value * 10 + digit);
            }
            if next > 4294967295 {
                proof {
                    assert forall|i: int| 0 <= i < seen + 1 implies is_digit(#[trigger] d[i]) by {}
                    assert(digits_value(d.take(seen + 1)) > u32::MAX);
                    if all_digits(d) {
                        lemma_digits_value_prefix(d, seen + 1);
                        assert(digits_value(d) > u32::MAX);
                    }
                    assert(u32_from_text(s@) is None);
                }
                return None;
            }
            value = next;
            any_digit = true;
            proof {
                seen = seen + 1;
            }
        }
    }
    proof {
        assert(d.take(seen) =~= d);
    }
    if !any_digit {
        return None;
    }
    Some(value as u32)
}

/// Appends one character to a string.
///
/// `String::push` appends the character to the end of the string; that is all this claims.
#[verifier::external_body]
pub(crate) fn push_char(out: &mut String, c: char)
    ensures
        final(out)@ == old(out)@.push(c),
{
    out.push(c);
}

/// A string holding the given characters.
pub fn text_from_chars(chars: &Vec<char>) -> (r: String)
    ensures
        r@ == chars@,
{
    let mut out = String::new();
    let mut i: usize = 0;
    while i < chars.len()
        invariant
            i <= chars@.len(),
            out@ == chars@.take(i as int),
        decreases chars@.len() - i,
    {
        push_char(&mut out, chars[i]);
        i += 1;
        proof {
            assert(out@ =~= chars@.take(i as int));
        }
    }
    proof {
        assert(out@ =~= chars@);
    }
    out
}

} // verus!
