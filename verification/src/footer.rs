//! The timing footer that closes every response on the wire.
//!
//! The footer reports the elapsed wall-clock time in seconds with exactly two
//! digits after the decimal point, between two carriage-return/line-feed
//! pairs. The elapsed time is taken as whole seconds and nanoseconds and is
//! rounded to the nearest hundredth, a tie going to the even hundredth.

use vstd::prelude::*;

verus! {

/// The bytes `"\r\n(took "`, which open the footer.
pub open spec fn opening() -> Seq<u8> {
    seq![13u8, 10u8, 40u8, 116u8, 111u8, 111u8, 107u8, 32u8]
}

/// The bytes `"s)\r\n"`, which close the footer.
pub open spec fn closing() -> Seq<u8> {
    seq![115u8, 41u8, 13u8, 10u8]
}

/// Whether `b` is an ASCII decimal digit.
pub open spec fn is_digit(b: u8) -> bool {
    48 <= b <= 57
}

/// The ASCII digit for `d`, which is below ten.
pub open spec fn digit(d: nat) -> u8 {
    (48 + d) as u8
}

/// An elapsed time of `secs` seconds and `nanos` nanoseconds in hundredths of
/// a second, rounded to the nearest, a tie to the even one.
pub open spec fn hundredths(secs: nat, nanos: nat) -> nat {
    let total = secs * 1_000_000_000 + nanos;
    let q = total / 10_000_000;
    let r = total % 10_000_000;
    if r > 5_000_000 || (r == 5_000_000 && q % 2 == 1) {
        q + 1
    } else {
        q
    }
}

/// The decimal numeral of `n`, without leading zeros.
pub open spec fn decimal(n: nat) -> Seq<u8>
    decreases n,
{
    if n < 10 {
        seq![digit(n)]
    } else {
        decimal(n / 10).push(digit(n % 10))
    }
}

/// The two-digit fraction, after a full stop, of a time of `centis`
/// hundredths of a second.
pub open spec fn fraction(centis: nat) -> Seq<u8> {
    seq![46u8, digit((centis / 10) % 10), digit(centis % 10)]
}

/// The footer for an elapsed time of `centis` hundredths of a second.
pub open spec fn footer_text(centis: nat) -> Seq<u8> {
    opening() + decimal(centis / 100) + fraction(centis) + closing()
}

/// The shape of every footer: the opening, one or more digits, a full stop,
/// exactly two digits, the closing.
pub open spec fn is_footer(b: Seq<u8>) -> bool {
    let n = b.len() as int;
    &&& n >= 16
    &&& b.take(8) == opening()
    &&& b.skip(n - 4) == closing()
    &&& forall|i: int| 8 <= i < n - 7 ==> is_digit(#[trigger] b[i])
    &&& b[n - 7] == 46u8
    &&& is_digit(b[n - 6])
    &&& is_digit(b[n - 5])
}

/// A decimal numeral is one or more digits, the first of which is zero only
/// for the number zero.
pub proof fn decimal_is_digits(n: nat)
    ensures
        decimal(n).len() >= 1,
        forall|i: int| 0 <= i < decimal(n).len() ==> is_digit(#[trigger] decimal(n)[i]),
        decimal(n)[0] == 48u8 <==> n == 0,
    decreases n,
{
    if n >= 10 {
        decimal_is_digits(n / 10);
    }
}

/// Every footer has the fixed shape, whatever the elapsed time: the literal
/// frame around a numeral with exactly two digits after the full stop.
pub proof fn footer_has_shape(secs: nat, nanos: nat)
    ensures
        is_footer(footer_text(hundredths(secs, nanos))),
{
    footer_text_has_shape(hundredths(secs, nanos));
}

/// The footer for any number of hundredths has the fixed shape.
pub proof fn footer_text_has_shape(centis: nat)
    ensures
        is_footer(footer_text(centis)),
{
    let d = decimal(centis / 100);
    decimal_is_digits(centis / 100);
    let b = footer_text(centis);
    let n = b.len() as int;
    assert(n == 8 + d.len() + 3 + 4);
    assert(b.take(8) =~= opening());
    assert(b.skip(n - 4) =~= closing());
    assert forall|i: int| 8 <= i < n - 7 implies is_digit(#[trigger] b[i]) by {
        assert(b[i] == d[i - 8]);
    }
    assert(b[n - 7] == fraction(centis)[0]);
    assert(b[n - 6] == fraction(centis)[1]);
    assert(b[n - 5] == fraction(centis)[2]);
}

/// Rounds an elapsed time to hundredths of a second.
pub fn round_hundredths(secs: u64, nanos: u32) -> (centis: u128)
    ensures
        centis == hundredths(secs as nat, nanos as nat),
{
    let total: u128 = (secs as u128) * 1_000_000_000 + (nanos as u128);
    let q: u128 = total / 10_000_000;
    let r: u128 = total % 10_000_000;
    if r > 5_000_000 || (r == 5_000_000 && q % 2 == 1) {
        q + 1
    } else {
        q
    }
}

/// Appends the decimal numeral of `n` to `out`.
pub fn push_decimal(out: &mut Vec<u8>, n: u128)
    ensures
        final(out)@ == old(out)@ + decimal(n as nat),
    decreases n,
{
    if n >= 10 {
        push_decimal(out, n / 10);
    }
    let d: u8 = (n % 10) as u8;
    out.push(48 + d);
    assert(final(out)@ =~= old(out)@ + decimal(n as nat));
}

/// The footer for an elapsed time given in hundredths of a second.
pub fn footer_for(centis: u128) -> (out: Vec<u8>)
    ensures
        out@ == footer_text(centis as nat),
{
    let mut out: Vec<u8> = Vec::new();
    out.push(13);
    out.push(10);
    out.push(40);
    out.push(116);
    out.push(111);
    out.push(111);
    out.push(107);
    out.push(32);
    assert(out@ =~= opening());
    push_decimal(&mut out, centis / 100);
    let tenths: u8 = ((centis / 10) % 10) as u8;
    let units: u8 = (centis % 10) as u8;
    out.push(46);
    out.push(48 + tenths);
    out.push(48 + units);
    out.push(115);
    out.push(41);
    out.push(13);
    out.push(10);
    assert(out@ =~= footer_text(centis as nat));
    out
}

/// The footer for an elapsed time of `secs` whole seconds and `nanos`
/// nanoseconds.
pub fn footer(secs: u64, nanos: u32) -> (out: Vec<u8>)
    ensures
        out@ == footer_text(hundredths(secs as nat, nanos as nat)),
        is_footer(out@),
{
    proof {
        footer_has_shape(secs as nat, nanos as nat);
    }
    footer_for(round_hundredths(secs, nanos))
}

} // verus!
