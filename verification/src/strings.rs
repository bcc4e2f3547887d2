//! Text utilities shared by the request parser, the response serialiser and
//! the router: decimal rendering and parsing, and plain string comparison.

use vstd::prelude::*;

verus! {

/// The character for a single decimal digit value.
pub open spec fn digit_char(d: int) -> char {
    ((d + 48) as u8) as char
}

/// The decimal rendering of a natural number, most significant digit first,
/// without padding: the digits `to_string` produces for an unsigned integer.
pub open spec fn dec_str(n: nat) -> Seq<char>
    decreases n,
{
    if n < 10 {
        seq![digit_char(n as int)]
    } else {
        dec_str(n / 10).push(digit_char((n % 10) as int))
    }
}

/// Relies on std's `String::push`: appends one character at the end.
#[verifier::external_body]
fn push_char(s: &mut String, c: char)
    ensures
        final(s)@ == old(s)@.push(c),
{
    s.push(c);
}

fn push_dec_u32(s: &mut String, n: u32)
    ensures
        final(s)@ == old(s)@ + dec_str(n as nat),
    decreases n,
{
    if n >= 10 {
        push_dec_u32(s, n / 10);
    }
    let d: u8 = (n % 10) as u8 + 48;
    push_char(s, d as char);
}

/// Render an unsigned integer as its plain decimal digits.
pub fn u32_to_string(n: u32) -> (s: String)
    ensures
        s@ == dec_str(n as nat),
{
    let mut s = String::new();
    push_dec_u32(&mut s, n);
    s
}

/// A decimal digit character.
pub open spec fn is_digit_char(c: char) -> bool {
    48 <= c as int <= 57
}

/// The value of a decimal digit character.
pub open spec fn digit_val(c: char) -> int {
    c as int - 48
}

/// Every character of the sequence is a decimal digit.
pub open spec fn all_digits(s: Seq<char>) -> bool {
    forall|i: int| 0 <= i < s.len() ==> is_digit_char(#[trigger] s[i])
}

/// The numeric value of a digit sequence, most significant digit first.
pub open spec fn dec_val(s: Seq<char>) -> int
    decreases s.len(),
{
    if s.len() == 0 {
        0
    } else {
        dec_val(s.drop_last()) * 10 + digit_val(s.last())
    }
}

/// What remains of a decimal numeral once an optional leading plus sign is
/// taken off: std's unsigned `parse` accepts `+30` as well as `30`.
pub open spec fn dec_digits_part(s: Seq<char>) -> Seq<char> {
    if s.len() > 0 && s[0] == '+' {
        s.subrange(1, s.len() as int)
    } else {
        s
    }
}

/// The sequence is a decimal numeral whose value is at most `max`: exactly
/// the inputs on which std's unsigned `parse` succeeds for a type whose
/// largest value is `max`.
pub open spec fn dec_parses(s: Seq<char>, max: int) -> bool {
    let d = dec_digits_part(s);
    d.len() > 0 && all_digits(d) && dec_val(d) <= max
}

pub proof fn lemma_dec_val_nonneg(s: Seq<char>)
    requires
        all_digits(s),
    ensures
        dec_val(s) >= 0,
    decreases s.len(),
{
    if s.len() > 0 {
        assert(all_digits(s.drop_last())) by {
            assert(forall|i: int|
                0 <= i < s.drop_last().len() ==> s.drop_last()[i] == s[i]);
        }
        lemma_dec_val_nonneg(s.drop_last());
    }
}

/// A digit sequence is worth at least as much as any of its prefixes.
pub proof fn lemma_dec_val_prefix(s: Seq<char>, i: int)
    requires
        all_digits(s),
        0 <= i <= s.len(),
    ensures
        dec_val(s.subrange(0, i)) <= dec_val(s),
    decreases s.len() - i,
{
    if i == s.len() {
        assert(s.subrange(0, i) =~= s);
    } else {
        lemma_dec_val_prefix(s, i + 1);
        let t = s.subrange(0, i + 1);
        assert(t.drop_last() =~= s.subrange(0, i));
        assert(all_digits(t.drop_last()));
        lemma_dec_val_nonneg(t.drop_last());
        assert(dec_val(t) == dec_val(s.subrange(0, i)) * 10 + digit_val(s[i]));
        assert(dec_val(s.subrange(0, i)) <= dec_val(t)) by {
            lemma_dec_val_nonneg(s.subrange(0, i));
        }
    }
}

/// Parse an unsigned decimal numeral, rejecting values above `max`: the
/// inputs accepted and the value returned are those of std's `parse` for an
/// unsigned integer type whose largest value is `max`.
pub fn parse_dec_u64(s: &str, max: u64) -> (r: Option<u64>)
    ensures
        r is Some <==> dec_parses(s@, max as int),
        r matches Some(v) ==> v == dec_val(dec_digits_part(s@)),
{
    let n = s.unicode_len();
    let start: usize = if n > 0 && s.get_char(0) == '+' {
        1
    } else {
        0
    };
    let ghost d = dec_digits_part(s@);
    proof {
        assert(d =~= s@.subrange(start as int, n as int));
    }
    if start == n {
        return None;
    }
    let mut acc: u64 = 0;
    let mut i: usize = start;
    while i < n
        invariant
            start <= i <= n,
            n == s@.len(),
            start < n,
            d == dec_digits_part(s@),
            d == s@.subrange(start as int, n as int),
            all_digits(d.subrange(0, i - start)),
            acc == dec_val(d.subrange(0, i - start)),
            acc <= max,
        decreases n - i,
    {
        let c = s.get_char(i);
        let cv = c as u32;
        let ghost pre = d.subrange(0, i - start);
        let ghost cur = d.subrange(0, i + 1 - start);
        proof {
            assert(cur.drop_last() =~= pre);
            assert(cur.last() == s@[i as int]);
        }
        proof {
            vstd::utf8::char_is_scalar(c);
            assert(c as int == cv as int);
        }
        if cv < 48 || cv > 57 {
            proof {
                assert(!is_digit_char(d[i - start]));
            }
            return None;
        }
        let digit = (cv - 48) as u64;
        if digit > max || acc > (max - digit) / 10 {
            proof {
                // the prefix up to and past this digit is already too large
                if digit > max {
                    assert(acc * 10 >= 0) by (nonlinear_arith)
                        requires
                            acc >= 0,
                    ;
                } else {
                    assert(acc * 10 + digit > max) by (nonlinear_arith)
                        requires
                            acc > (max - digit) / 10,
                            0 <= digit <= 9,
                            digit <= max,
                            acc >= 0,
                    ;
                }
                if all_digits(d) {
                    lemma_dec_val_prefix(d, i + 1 - start);
                    assert(dec_val(cur) == acc * 10 + digit);
                }
            }
            return None;
        }
        proof {
            assert(acc * 10 + digit <= max) by (nonlinear_arith)
                requires
                    acc <= (max - digit) / 10,
                    0 <= digit <= 9,
                    acc >= 0,
                    max >= digit,
            ;
        }
        acc = acc * 10 + digit;
        i = i + 1;
    }
    proof {
        assert(d.subrange(0, n - start) =~= d);
    }
    Some(acc)
}

/// Parse a 16-bit unsigned decimal numeral, as std's `parse::<u16>` does.
pub fn parse_u16(s: &str) -> (r: Option<u16>)
    ensures
        r is Some <==> dec_parses(s@, u16::MAX as int),
        r matches Some(v) ==> v == dec_val(dec_digits_part(s@)),
{
    match parse_dec_u64(s, 65535) {
        Some(v) => Some(v as u16),
        None => None,
    }
}

/// Parse a 32-bit unsigned decimal numeral, as std's `parse::<u32>` does.
pub fn parse_u32(s: &str) -> (r: Option<u32>)
    ensures
        r is Some <==> dec_parses(s@, u32::MAX as int),
        r matches Some(v) ==> v == dec_val(dec_digits_part(s@)),
{
    match parse_dec_u64(s, 0xffff_ffff) {
        Some(v) => Some(v as u32),
        None => None,
    }
}

/// Rendering a number as decimal digits and parsing them back recovers the
/// number: `dec_str(n)` is a plain numeral (no sign), and its value is `n`.
pub proof fn lemma_dec_round_trip(n: nat)
    ensures
        dec_str(n).len() > 0,
        all_digits(dec_str(n)),
        dec_digits_part(dec_str(n)) == dec_str(n),
        dec_val(dec_str(n)) == n,
    decreases n,
{
    if n < 10 {
        assert(is_digit_char(digit_char(n as int)));
        let s = dec_str(n);
        assert(s =~= seq![digit_char(n as int)]);
        assert(s.last() == digit_char(n as int));
        assert(s.drop_last() =~= Seq::<char>::empty());
        assert(dec_val(s.drop_last()) == 0);
        assert(dec_val(s) == digit_val(digit_char(n as int)));
        assert(dec_val(dec_str(n)) == n);
    } else {
        lemma_dec_round_trip(n / 10);
        let s = dec_str(n);
        let t = dec_str(n / 10);
        assert(s == t.push(digit_char((n % 10) as int)));
        assert(s.drop_last() =~= t);
        assert(s.last() == digit_char((n % 10) as int));
        assert(is_digit_char(s.last()));
        assert(forall|i: int| 0 <= i < s.len() ==> is_digit_char(#[trigger] s[i])) by {
            assert(forall|i: int| 0 <= i < t.len() ==> s[i] == t[i]);
        }
        assert(dec_val(s) == dec_val(t) * 10 + digit_val(s.last()));
        assert(dec_val(s) == n) by {
            assert(dec_val(t) == n / 10);
            assert(digit_val(s.last()) == n % 10);
        }
    }
    assert(dec_str(n)[0] != '+');
}

/// The position of the first occurrence of `sep`, or the length of the
/// sequence when it does not occur.
pub open spec fn find_idx<A>(s: Seq<A>, sep: A) -> nat
    decreases s.len(),
{
    if s.len() == 0 {
        0
    } else if s[0] == sep {
        0
    } else {
        1 + find_idx(s.drop_first(), sep)
    }
}

/// A position with no separator before it, and the separator (or the end)
/// at it, is where `find_idx` points.
pub proof fn lemma_find_idx_at<A>(s: Seq<A>, sep: A, j: int)
    requires
        0 <= j <= s.len(),
        forall|m: int| 0 <= m < j ==> s[m] != sep,
        j < s.len() ==> s[j] == sep,
    ensures
        find_idx(s, sep) == j,
    decreases j,
{
    if j == 0 {
        if s.len() > 0 {
            assert(s[0] == sep);
        }
    } else {
        assert(s[0] != sep);
        let t = s.drop_first();
        assert(forall|m: int| 0 <= m < j - 1 ==> t[m] == s[m + 1] && s[m + 1] != sep);
        lemma_find_idx_at(t, sep, j - 1);
    }
}

/// The pieces of a sequence between occurrences of a separator, in order:
/// what `split` yields. A sequence without the separator is one piece, so an
/// empty sequence is one empty piece.
pub open spec fn split_on<A>(s: Seq<A>, sep: A) -> Seq<Seq<A>>
    decreases s.len(),
{
    let i = find_idx(s, sep);
    if i >= s.len() {
        seq![s]
    } else {
        seq![s.subrange(0, i as int)] + split_on(s.subrange(i as int + 1, s.len() as int), sep)
    }
}

/// The position of the first occurrence of `sep` in the characters of `s`
/// at or after `from`, or the length of `s` when there is none.
pub fn find_char_from(s: &str, sep: char, from: usize) -> (r: usize)
    requires
        from <= s@.len(),
    ensures
        r == from + find_idx(s@.subrange(from as int, s@.len() as int), sep),
        from <= r <= s@.len(),
        r < s@.len() ==> s@[r as int] == sep,
{
    let n = s.unicode_len();
    let ghost t = s@.subrange(from as int, s@.len() as int);
    let mut i: usize = from;
    while i < n
        invariant
            from <= i <= n,
            n == s@.len(),
            t == s@.subrange(from as int, s@.len() as int),
            forall|m: int| from <= m < i ==> s@[m] != sep,
        decreases n - i,
    {
        if s.get_char(i) == sep {
            proof {
                assert(forall|m: int| 0 <= m < i - from ==> t[m] == s@[m + from] && t[m] != sep);
                assert(t[i - from] == sep);
                lemma_find_idx_at(t, sep, i - from);
            }
            return i;
        }
        i = i + 1;
    }
    proof {
        assert(forall|m: int| 0 <= m < t.len() ==> t[m] == s@[m + from] && t[m] != sep);
        lemma_find_idx_at(t, sep, t.len() as int);
    }
    n
}

/// Whether two string slices hold the same characters.
pub fn str_eq(a: &str, b: &str) -> (r: bool)
    ensures
        r == (a@ == b@),
{
    let na = a.unicode_len();
    let nb = b.unicode_len();
    if na != nb {
        return false;
    }
    let mut i: usize = 0;
    while i < na
        invariant
            0 <= i <= na,
            na == a@.len(),
            na == b@.len(),
            forall|j: int| 0 <= j < i ==> a@[j] == b@[j],
        decreases na - i,
    {
        if a.get_char(i) != b.get_char(i) {
            return false;
        }
        i = i + 1;
    }
    proof {
        assert(a@ =~= b@);
    }
    true
}

} // verus!
