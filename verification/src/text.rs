//! ASCII text helpers: rendering literals, decimal numbers and hex digits
//! into byte buffers, and case-insensitive byte comparison.
//!
//! The console protocol is ASCII-only, so all text handled by this crate is
//! modelled as byte sequences; a string literal enters a buffer through
//! [`push_str`], one byte per character.

use vstd::prelude::*;

verus! {

/// Each character of `s` as a single byte. Meaningful for ASCII text only.
pub open spec fn ascii_bytes(s: Seq<char>) -> Seq<u8> {
    Seq::new(s.len(), |i: int| s[i] as u8)
}

/// Append the characters of `s` to `out`, one byte per character.
pub fn push_str(out: &mut Vec<u8>, s: &str)
    ensures
        final(out)@ == old(out)@ + ascii_bytes(s@),
{
    let n = s.unicode_len();
    assert(out@ =~= old(out)@ + ascii_bytes(s@).take(0));
    for i in 0..n
        invariant
            n == s@.len(),
            out@ == old(out)@ + ascii_bytes(s@).take(i as int),
    {
        let c = s.get_char(i);
        out.push(c as u8);
        assert(ascii_bytes(s@).take(i + 1) =~= ascii_bytes(s@).take(i as int).push(c as u8));
        assert(out@ =~= old(out)@ + ascii_bytes(s@).take(i + 1));
    }
    assert(ascii_bytes(s@).take(n as int) =~= ascii_bytes(s@));
}

/// The byte for a single decimal digit.
pub open spec fn dec_digit(d: nat) -> u8
    recommends
        d < 10,
{
    (('0' as u8) + d) as u8
}

/// The decimal rendering of `n`, most significant digit first, no sign and
/// no leading zeros (except for `n == 0`, rendered as one `'0'`).
pub open spec fn dec_bytes(n: nat) -> Seq<u8>
    decreases n,
{
    if n < 10 {
        seq![dec_digit(n)]
    } else {
        dec_bytes(n / 10).push(dec_digit(n % 10))
    }
}

/// Append the decimal rendering of `n` to `out`.
pub fn push_dec_u32(out: &mut Vec<u8>, n: u32)
    ensures
        final(out)@ == old(out)@ + dec_bytes(n as nat),
{
    let mut digits: Vec<u8> = Vec::new();
    let mut rest: u32 = n;
    loop
        invariant_except_break
            rest > 0 || digits@.len() == 0,
            dec_bytes(n as nat) =~= dec_bytes(rest as nat) + digits@.reverse(),
        ensures
            dec_bytes(n as nat) =~= digits@.reverse(),
        decreases rest,
    {
        let ghost pre = digits@;
        let ghost r0 = rest as nat;
        let d: u8 = (rest % 10) as u8;
        digits.push(48 + d);
        rest = rest / 10;
        proof {
            assert(digits@.reverse() =~= seq![dec_digit(r0 % 10)] + pre.reverse());
            if r0 >= 10 {
                assert(dec_bytes(r0) == dec_bytes(r0 / 10).push(dec_digit(r0 % 10)));
                assert(dec_bytes(r0 / 10) + digits@.reverse() =~= dec_bytes(r0) + pre.reverse());
            } else {
                assert(dec_bytes(r0) =~= seq![dec_digit(r0 % 10)]);
                assert(digits@.reverse() =~= dec_bytes(r0) + pre.reverse());
            }
        }
        if rest == 0 {
            break;
        }
    }
    let k = digits.len();
    assert(out@ =~= old(out)@ + digits@.reverse().take(0));
    for i in 0..k
        invariant
            k == digits@.len(),
            dec_bytes(n as nat) =~= digits@.reverse(),
            out@ == old(out)@ + digits@.reverse().take(i as int),
    {
        let b = digits[k - 1 - i];
        out.push(b);
        assert(digits@.reverse().take(i + 1) =~= digits@.reverse().take(i as int).push(
            digits@[k - 1 - i]));
        assert(out@ =~= old(out)@ + digits@.reverse().take(i + 1));
    }
    assert(digits@.reverse().take(k as int) =~= digits@.reverse());
}

/// Append the decimal rendering of `n` to `out`.
pub fn push_dec_u8(out: &mut Vec<u8>, n: u8)
    ensures
        final(out)@ == old(out)@ + dec_bytes(n as nat),
{
    push_dec_u32(out, n as u32);
}

/// The byte for a single lower-case hexadecimal digit.
pub open spec fn hex_digit(d: nat) -> u8
    recommends
        d < 16,
{
    if d < 10 {
        (('0' as u8) + d) as u8
    } else {
        (('a' as u8) + (d - 10)) as u8
    }
}

/// The lower-case hexadecimal rendering of `bytes`, two digits per byte.
pub open spec fn hex_bytes(bytes: Seq<u8>) -> Seq<u8>
    decreases bytes.len(),
{
    if bytes.len() == 0 {
        Seq::empty()
    } else {
        hex_bytes(bytes.drop_last()) + seq![
            hex_digit(bytes.last() as nat / 16),
            hex_digit(bytes.last() as nat % 16),
        ]
    }
}

/// Append the hexadecimal rendering of `bytes` to `out`.
pub fn push_hex(out: &mut Vec<u8>, bytes: &[u8])
    ensures
        final(out)@ == old(out)@ + hex_bytes(bytes@),
{
    let n = bytes.len();
    assert(out@ =~= old(out)@ + hex_bytes(bytes@.take(0)));
    for i in 0..n
        invariant
            n == bytes@.len(),
            out@ == old(out)@ + hex_bytes(bytes@.take(i as int)),
    {
        let b = bytes[i];
        let hi: u8 = b / 16;
        let lo: u8 = b % 16;
        out.push(if hi < 10 {
            48 + hi
        } else {
            87 + hi
        });
        out.push(if lo < 10 {
            48 + lo
        } else {
            87 + lo
        });
        proof {
            assert(bytes@.take(i + 1).drop_last() =~= bytes@.take(i as int));
            assert(out@ =~= old(out)@ + hex_bytes(bytes@.take(i + 1)));
        }
    }
    assert(bytes@.take(n as int) =~= bytes@);
}

/// A byte with any ASCII upper-case letter folded to lower case.
pub open spec fn lower(b: u8) -> u8 {
    if ('A' as u8) <= b <= ('Z' as u8) {
        (b + 32) as u8
    } else {
        b
    }
}

/// A byte sequence folded to ASCII lower case.
pub open spec fn lower_seq(s: Seq<u8>) -> Seq<u8> {
    s.map_values(|b: u8| lower(b))
}

/// Whether two byte sequences are equal up to ASCII case.
pub open spec fn eq_ignore_ascii_case(a: Seq<u8>, b: Seq<u8>) -> bool {
    lower_seq(a) == lower_seq(b)
}

/// Whether the bytes of `t` spell `kw` up to ASCII case.
pub fn token_matches(t: &[u8], kw: &str) -> (r: bool)
    ensures
        r == eq_ignore_ascii_case(t@, ascii_bytes(kw@)),
{
    let n = t.len();
    if n != kw.unicode_len() {
        assert(lower_seq(t@).len() != lower_seq(ascii_bytes(kw@)).len());
        return false;
    }
    for i in 0..n
        invariant
            n == t@.len() == kw@.len(),
            forall|j: int| 0 <= j < i ==> lower(t@[j]) == lower(ascii_bytes(kw@)[j]),
    {
        let a = t[i];
        let b = kw.get_char(i) as u8;
        let la = if 65 <= a && a <= 90 {
            a + 32
        } else {
            a
        };
        let lb = if 65 <= b && b <= 90 {
            b + 32
        } else {
            b
        };
        if la != lb {
            assert(lower_seq(t@)[i as int] != lower_seq(ascii_bytes(kw@))[i as int]);
            return false;
        }
    }
    assert(lower_seq(t@) =~= lower_seq(ascii_bytes(kw@)));
    true
}

/// Append all of `bytes` to `out`.
pub fn push_bytes(out: &mut Vec<u8>, bytes: &[u8])
    ensures
        final(out)@ == old(out)@ + bytes@,
{
    let n = bytes.len();
    assert(out@ =~= old(out)@ + bytes@.take(0));
    for i in 0..n
        invariant
            n == bytes@.len(),
            out@ == old(out)@ + bytes@.take(i as int),
    {
        out.push(bytes[i]);
        assert(bytes@.take(i + 1) =~= bytes@.take(i as int).push(bytes@[i as int]));
        assert(out@ =~= old(out)@ + bytes@.take(i + 1));
    }
    assert(bytes@.take(n as int) =~= bytes@);
}

} // verus!
