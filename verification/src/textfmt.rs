//! Exact decimal rendering of integers into character buffers, and the
//! conversion of a finished character buffer into a `String`.
//!
//! Rendered output is accumulated as a `Vec<char>` so that every push is
//! fully specified; a single trusted conversion turns the finished buffer
//! into a `String` whose view is the same character sequence.

use vstd::prelude::*;

verus! {

/// The character for one decimal digit.
pub open spec fn digit_char(d: int) -> char {
    if d == 0 {
        '0'
    } else if d == 1 {
        '1'
    } else if d == 2 {
        '2'
    } else if d == 3 {
        '3'
    } else if d == 4 {
        '4'
    } else if d == 5 {
        '5'
    } else if d == 6 {
        '6'
    } else if d == 7 {
        '7'
    } else if d == 8 {
        '8'
    } else {
        '9'
    }
}

/// The decimal representation of a non-negative integer, most significant
/// digit first, with no leading zeros (zero itself is "0").
pub open spec fn dec_of(n: int) -> Seq<char>
    decreases n,
{
    if n < 10 {
        seq![digit_char(n)]
    } else {
        dec_of(n / 10).push(digit_char(n % 10))
    }
}

/// The decimal representation of a signed integer: a minus sign followed by
/// the digits of the magnitude when negative.
pub open spec fn dec_signed(n: int) -> Seq<char> {
    if n < 0 {
        seq!['-'] + dec_of(-n)
    } else {
        dec_of(n)
    }
}

fn digit_to_char(d: u64) -> (c: char)
    requires
        d < 10,
    ensures
        c == digit_char(d as int),
{
    if d == 0 {
        '0'
    } else if d == 1 {
        '1'
    } else if d == 2 {
        '2'
    } else if d == 3 {
        '3'
    } else if d == 4 {
        '4'
    } else if d == 5 {
        '5'
    } else if d == 6 {
        '6'
    } else if d == 7 {
        '7'
    } else if d == 8 {
        '8'
    } else {
        '9'
    }
}

/// Appends the decimal digits of `v` to `out`.
pub fn push_dec_u64(out: &mut Vec<char>, v: u64)
    ensures
        final(out)@ == old(out)@ + dec_of(v as int),
{
    let mut low: Vec<char> = Vec::new();
    let mut x: u64 = v;
    while x >= 10
        invariant
            dec_of(v as int) == dec_of(x as int) + low@.reverse(),
        decreases x,
    {
        let d = x % 10;
        let ghost prev = low@;
        low.push(digit_to_char(d));
        proof {
            assert(low@.reverse() =~= seq![digit_char(d as int)] + prev.reverse());
            assert(dec_of(x as int) == dec_of(x as int / 10).push(digit_char(x as int % 10)));
            assert(dec_of(x as int / 10) + seq![digit_char(d as int)] + prev.reverse() =~= dec_of(
                x as int,
            ) + prev.reverse());
        }
        x = x / 10;
    }
    let ghost mid = out@;
    out.push(digit_to_char(x));
    proof {
        assert(dec_of(x as int) =~= seq![digit_char(x as int)]);
        assert(out@ =~= mid + dec_of(x as int));
    }
    let mut i: usize = low.len();
    while i > 0
        invariant
            i <= low@.len(),
            dec_of(v as int) == dec_of(x as int) + low@.reverse(),
            out@ == mid + dec_of(x as int) + low@.reverse().take(low@.len() - i),
        decreases i,
    {
        i = i - 1;
        out.push(low[i]);
        proof {
            let rev = low@.reverse();
            assert(rev[low@.len() - i - 1] == low@[i as int]);
            assert(out@ =~= mid + dec_of(x as int) + rev.take(low@.len() - i));
        }
    }
    proof {
        assert(low@.reverse().take(low@.len() as int) =~= low@.reverse());
        assert(out@ =~= old(out)@ + dec_of(v as int));
    }
}

/// Appends the decimal digits of a byte value to `out`.
pub fn push_dec_u8(out: &mut Vec<char>, v: u8)
    ensures
        final(out)@ == old(out)@ + dec_of(v as int),
{
    push_dec_u64(out, v as u64);
}

/// Appends the signed decimal form of `v` to `out`.
pub fn push_dec_i32(out: &mut Vec<char>, v: i32)
    ensures
        final(out)@ == old(out)@ + dec_signed(v as int),
{
    if v < 0 {
        out.push('-');
        let mag: u64 = (-(v as i64)) as u64;
        push_dec_u64(out, mag);
        proof {
            assert(out@ =~= old(out)@ + dec_signed(v as int));
        }
    } else {
        push_dec_u64(out, v as u64);
    }
}

/// Appends the decimal digits of `v` to `out`.
pub fn push_dec_u32(out: &mut Vec<char>, v: u32)
    ensures
        final(out)@ == old(out)@ + dec_of(v as int),
{
    push_dec_u64(out, v as u64);
}

/// The decimal digits of `v` as a `String`.
pub fn u32_to_string(v: u32) -> (r: String)
    ensures
        r@ == dec_of(v as int),
{
    let mut out: Vec<char> = Vec::new();
    push_dec_u32(&mut out, v);
    string_from_chars(out)
}

/// The signed decimal form of `v` as a `String`.
pub fn i32_to_string(v: i32) -> (r: String)
    ensures
        r@ == dec_signed(v as int),
{
    let mut out: Vec<char> = Vec::new();
    push_dec_i32(&mut out, v);
    string_from_chars(out)
}

/// Relies on `String`'s `FromIterator<char>` implementation: collecting
/// characters yields the string of exactly those characters in order.
#[verifier::external_body]
pub fn string_from_chars(v: Vec<char>) -> (r: String)
    ensures
        r@ == v@,
{
    v.into_iter().collect()
}

/// What `char::is_whitespace` returns for a character: a function of the
/// character alone.
pub uninterp spec fn is_space_char(c: char) -> bool;

/// Relies on `char::is_whitespace`: whether the character has the Unicode
/// white-space property, a function of the character alone.
#[verifier::external_body]
pub fn is_space(c: char) -> (r: bool)
    ensures
        r == is_space_char(c),
{
    c.is_whitespace()
}

/// What `char::is_alphanumeric` returns for a character: a function of the
/// character alone.
pub uninterp spec fn is_alnum_char(c: char) -> bool;

/// Relies on `char::is_alphanumeric`: whether the character is a Unicode
/// letter or digit, a function of the character alone.
#[verifier::external_body]
pub fn is_alnum(c: char) -> (r: bool)
    ensures
        r == is_alnum_char(c),
{
    c.is_alphanumeric()
}

/// Relies on `str::chars` collected into a `Vec`: the characters of the
/// string, in order — exactly the string's view.
#[verifier::external_body]
pub fn chars_of(s: &str) -> (r: Vec<char>)
    ensures
        r@ == s@,
{
    s.chars().collect()
}

/// Every character of the sequence is white space.
pub open spec fn all_space(s: Seq<char>) -> bool {
    forall|i: int| 0 <= i < s.len() ==> is_space_char(#[trigger] s[i])
}

/// Strips leading and trailing white space: the result is the contiguous
/// piece of the input from its first to its last non-space character.
pub fn trim_chars(v: &Vec<char>) -> (r: Vec<char>)
    ensures
        exists|lo: int, hi: int|
            #![auto]
            0 <= lo <= hi <= v@.len() && r@ == v@.subrange(lo, hi) && all_space(
                v@.subrange(0, lo),
            ) && all_space(v@.subrange(hi, v@.len() as int)) && (lo < hi ==> !is_space_char(
                v@[lo],
            ) && !is_space_char(v@[hi - 1])),
        r@.len() == 0 <==> all_space(v@),
{
    let n: usize = v.len();
    let mut lo: usize = 0;
    while lo < n && is_space(v[lo])
        invariant
            n == v@.len(),
            lo <= n,
            forall|i: int| 0 <= i < lo ==> is_space_char(#[trigger] v@[i]),
        decreases n - lo,
    {
        lo = lo + 1;
    }
    if lo == n {
        let r: Vec<char> = Vec::new();
        proof {
            assert(all_space(v@));
            assert(r@ =~= v@.subrange(n as int, n as int));
            assert(all_space(v@.subrange(0, n as int))) by {
                assert(v@.subrange(0, n as int) =~= v@);
            }
            assert(all_space(v@.subrange(n as int, n as int)));
        }
        return r;
    }
    let mut hi: usize = n;
    while hi > lo + 1 && is_space(v[hi - 1])
        invariant
            n == v@.len(),
            lo < hi <= n,
            !is_space_char(v@[lo as int]),
            forall|i: int| hi <= i < n ==> is_space_char(#[trigger] v@[i]),
        decreases hi,
    {
        hi = hi - 1;
    }
    let mut r: Vec<char> = Vec::new();
    let mut i: usize = lo;
    while i < hi
        invariant
            n == v@.len(),
            lo <= i <= hi <= n,
            r@ == v@.subrange(lo as int, i as int),
        decreases hi - i,
    {
        r.push(v[i]);
        proof {
            assert(r@ =~= v@.subrange(lo as int, i as int + 1));
        }
        i = i + 1;
    }
    proof {
        assert(all_space(v@.subrange(0, lo as int)));
        assert(all_space(v@.subrange(hi as int, n as int)));
        assert(!is_space_char(v@[lo as int]));
        assert(!is_space_char(v@[hi - 1]));
        assert(r@.len() > 0);
        assert(!all_space(v@)) by {
            assert(!is_space_char(v@[lo as int]));
        }
    }
    r
}

/// Relies on `char::from_u32`: every value that is a Unicode scalar value
/// (at most 0x10FFFF and not a surrogate) converts to the character with
/// exactly that code point.
#[verifier::external_body]
pub fn char_from_code(v: u32) -> (c: char)
    requires
        v <= 0x10FFFF,
        !(0xD800 <= v <= 0xDFFF),
    ensures
        c as u32 == v,
{
    char::from_u32(v).unwrap_or(' ')
}

} // verus!
