//! Text-building primitives shared by every escape sequence: decimal
//! rendering of unsigned integers and the base64 encoding of a binary
//! payload.

use vstd::prelude::*;
use vstd::string::StringExecFns;

verus! {

/// The character for a single decimal digit.
pub open spec fn digit_char(d: nat) -> char {
    if d == 0 {
        '0'
    } else if d == 1 {
        '1'
    } else if d == 2 {
        '2'
    } else if d == 3 {
        '3'
    } else if d == 4 {
        '4'
    } else if d == 5 {
        '5'
    } else if d == 6 {
        '6'
    } else if d == 7 {
        '7'
    } else if d == 8 {
        '8'
    } else {
        '9'
    }
}

/// The usual decimal rendering of `n`: most significant digit first, no
/// leading zeros (except for `n == 0`, which is the single digit `0`).
pub open spec fn dec_digits(n: nat) -> Seq<char>
    decreases n,
{
    if n < 10 {
        seq![digit_char(n)]
    } else {
        dec_digits(n / 10) + seq![digit_char(n % 10)]
    }
}

/// Appends the character of the single digit `d` to `out`.
fn push_digit(out: &mut String, d: u8)
    requires
        d < 10,
    ensures
        final(out)@ == old(out)@ + seq![digit_char(d as nat)],
{
    match d {
        0 => out.append("0"),
        1 => out.append("1"),
        2 => out.append("2"),
        3 => out.append("3"),
        4 => out.append("4"),
        5 => out.append("5"),
        6 => out.append("6"),
        7 => out.append("7"),
        8 => out.append("8"),
        _ => out.append("9"),
    }
    proof {
        reveal_strlit("0");
        reveal_strlit("1");
        reveal_strlit("2");
        reveal_strlit("3");
        reveal_strlit("4");
        reveal_strlit("5");
        reveal_strlit("6");
        reveal_strlit("7");
        reveal_strlit("8");
        reveal_strlit("9");
        assert(out@ =~= old(out)@ + seq![digit_char(d as nat)]);
    }
}

/// Appends the decimal rendering of `n` to `out`.
pub fn push_dec(out: &mut String, n: u64)
    ensures
        final(out)@ == old(out)@ + dec_digits(n as nat),
    decreases n,
{
    if n < 10 {
        push_digit(out, n as u8);
    } else {
        push_dec(out, n / 10);
        push_digit(out, (n % 10) as u8);
        proof {
            assert(out@ =~= old(out)@ + dec_digits(n as nat));
        }
    }
}

/// The base64 text (standard alphabet, with `=` padding, no line breaks)
/// of a byte sequence. The encoding is a function of the bytes alone; its
/// value is given meaning only by [`base64_text`] below.
pub uninterp spec fn b64_of(bytes: Seq<u8>) -> Seq<char>;

/// The base64 encoder computes an output buffer of `4 * (len / 3)` or
/// `4 * (len / 3) + 4` bytes; it aborts when that size does not fit in
/// `usize`. Inputs admitted here are the ones it encodes without aborting.
pub open spec fn payload_fits(len: nat) -> bool {
    4 * (len / 3) + 4 <= usize::MAX
}

/// Relies on `base64::encode`: encodes with the standard alphabet, padded,
/// without line wrapping; the result depends on the input bytes alone.
#[verifier::external_body]
pub fn base64_text(data: &[u8]) -> (r: String)
    requires
        payload_fits(data@.len()),
    ensures
        r@ == b64_of(data@),
{
    base64::encode(data)
}

} // verus!
