use vstd::prelude::*;

verus! {

/// A local calendar time, split into plain components, at second
/// resolution.
#[derive(Clone, Copy, Debug, PartialEq, Eq, Structural)]
pub struct Timestamp {
    pub year: u16,
    pub month: u8,
    pub day: u8,
    pub hour: u8,
    pub minute: u8,
    pub second: u8,
}

/// The last `width` decimal digits of `n`, most significant first,
/// zero-padded on the left.
pub open spec fn dec_digits(n: nat, width: nat) -> Seq<u8>
    decreases width,
{
    if width == 0 {
        Seq::empty()
    } else {
        dec_digits(n / 10, (width - 1) as nat) + seq![(48 + n % 10) as u8]
    }
}

/// The bytes of the file name a capture at time `t` is saved under:
/// `YYYY-MM-DD-HH-MM-SS.png`.
pub open spec fn spec_stamp_name(t: Timestamp) -> Seq<u8> {
    dec_digits(t.year as nat, 4) + seq![45u8] + dec_digits(t.month as nat, 2) + seq![45u8]
        + dec_digits(t.day as nat, 2) + seq![45u8] + dec_digits(t.hour as nat, 2) + seq![45u8]
        + dec_digits(t.minute as nat, 2) + seq![45u8] + dec_digits(t.second as nat, 2) + seq![
        46u8,
        112u8,
        110u8,
        103u8,
    ]
}

/// Appends the last `width` decimal digits of `n`, zero-padded.
fn push_decimal(out: &mut Vec<u8>, n: u32, width: u32)
    ensures
        final(out)@ == old(out)@ + dec_digits(n as nat, width as nat),
    decreases width,
{
    if width > 0 {
        push_decimal(out, n / 10, width - 1);
        out.push(48 + (n % 10) as u8);
    }
    proof {
        assert(out@ =~= old(out)@ + dec_digits(n as nat, width as nat));
    }
}

/// Builds the timestamped file name a capture at time `t` is saved
/// under: the zero-padded components joined by `-`, with the `.png`
/// extension.
pub fn stamp_filename(t: &Timestamp) -> (r: Vec<u8>)
    requires
        t.year <= 9999,
        t.month <= 99,
        t.day <= 99,
        t.hour <= 99,
        t.minute <= 99,
        t.second <= 99,
    ensures
        r@ == spec_stamp_name(*t),
{
    let mut out: Vec<u8> = Vec::new();
    push_decimal(&mut out, t.year as u32, 4);
    out.push(45);
    push_decimal(&mut out, t.month as u32, 2);
    out.push(45);
    push_decimal(&mut out, t.day as u32, 2);
    out.push(45);
    push_decimal(&mut out, t.hour as u32, 2);
    out.push(45);
    push_decimal(&mut out, t.minute as u32, 2);
    out.push(45);
    push_decimal(&mut out, t.second as u32, 2);
    out.push(46);
    out.push(112);
    out.push(110);
    out.push(103);
    proof {
        assert(out@ =~= spec_stamp_name(*t));
    }
    out
}

} // verus!
