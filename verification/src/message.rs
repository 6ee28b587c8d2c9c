//! The byte string that is authenticated for one identity and one window.

use vstd::prelude::*;

verus! {

/// The decimal digits of `n` in ASCII, without leading zeros.
pub open spec fn decimal(n: nat) -> Seq<u8>
    decreases n,
{
    if n < 10 {
        seq![(0x30 + n) as u8]
    } else {
        decimal(n / 10).push((0x30 + n % 10) as u8)
    }
}

/// The decimal form of `v` in ASCII, with a minus sign before a negative one.
pub open spec fn signed_decimal(v: int) -> Seq<u8> {
    if v < 0 {
        seq![0x2du8] + decimal((-v) as nat)
    } else {
        decimal(v as nat)
    }
}

/// The three numbers in decimal, with a vertical bar between them.
pub open spec fn canonical_message(format_version: u32, identity: u64, window_index: i64) -> Seq<u8> {
    decimal(format_version as nat) + seq![0x7cu8] + decimal(identity as nat) + seq![0x7cu8]
        + signed_decimal(window_index as int)
}

/// Appends the decimal digits of `n` to `out`.
pub fn push_decimal(out: &mut Vec<u8>, n: u64)
    ensures
        final(out)@ == old(out)@ + decimal(n as nat),
    decreases n,
{
    if n >= 10 {
        push_decimal(out, n / 10);
    }
    let digit: u8 = (n % 10) as u8;
    out.push(0x30u8 + digit);
    assert(final(out)@ =~= old(out)@ + decimal(n as nat));
}

/// Appends the decimal form of `v` to `out`.
pub fn push_signed_decimal(out: &mut Vec<u8>, v: i64)
    ensures
        final(out)@ == old(out)@ + signed_decimal(v as int),
{
    if v < 0 {
        out.push(0x2du8);
        let magnitude: u64 = (-(v as i128)) as u64;
        push_decimal(out, magnitude);
        assert(final(out)@ =~= old(out)@ + signed_decimal(v as int));
    } else {
        push_decimal(out, v as u64);
    }
}

/// Builds the message that is authenticated for `identity` in the window
/// `window_index` under a key of the given format version.
pub fn build_message(format_version: u32, identity: u64, window_index: i64) -> (message: Vec<u8>)
    ensures
        message@ == canonical_message(format_version, identity, window_index),
{
    let mut message: Vec<u8> = Vec::new();
    push_decimal(&mut message, format_version as u64);
    message.push(0x7cu8);
    push_decimal(&mut message, identity);
    message.push(0x7cu8);
    push_signed_decimal(&mut message, window_index);
    assert(message@ =~= canonical_message(format_version, identity, window_index));
    message
}

} // verus!
