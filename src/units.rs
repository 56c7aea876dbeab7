use vstd::prelude::*;
use vstd::string::*;

verus! {

/// The memory units a quantity of bytes is shown in, from smallest to largest.
#[derive(Clone, Copy, Debug, PartialEq, Eq, Structural)]
pub enum MemUnit {
    Bytes,
    KB,
    MB,
    GB,
    TB,
}

/// How many bytes one of `u` holds.
pub open spec fn unit_size(u: MemUnit) -> nat {
    match u {
        MemUnit::Bytes => 1,
        MemUnit::KB => 1024,
        MemUnit::MB => 1024 * 1024,
        MemUnit::GB => 1024 * 1024 * 1024,
        MemUnit::TB => 1024 * 1024 * 1024 * 1024,
    }
}

/// The largest unit of which an amount of `milli` thousandths of a byte holds
/// at least one; `Bytes` below one kibibyte.
pub open spec fn unit_for(milli: nat) -> MemUnit {
    if milli >= 1000 * unit_size(MemUnit::TB) {
        MemUnit::TB
    } else if milli >= 1000 * unit_size(MemUnit::GB) {
        MemUnit::GB
    } else if milli >= 1000 * unit_size(MemUnit::MB) {
        MemUnit::MB
    } else if milli >= 1000 * unit_size(MemUnit::KB) {
        MemUnit::KB
    } else {
        MemUnit::Bytes
    }
}

/// `n / d` rounded to the nearest integer, ties to the even one.
pub open spec fn round_half_even(n: nat, d: nat) -> nat
    recommends
        d > 0,
{
    let q = n / d;
    let r = n % d;
    if 2 * r > d || (2 * r == d && q % 2 == 1) {
        q + 1
    } else {
        q
    }
}

/// An amount of `milli` thousandths of a byte, expressed in its unit: the value
/// in thousandths of that unit, rounded to the nearest, and the unit.
pub open spec fn scaled(milli: nat) -> (nat, MemUnit) {
    let u = unit_for(milli);
    (round_half_even(milli, unit_size(u)), u)
}

/// The ASCII name of a unit.
pub open spec fn unit_name(u: MemUnit) -> Seq<u8> {
    match u {
        MemUnit::Bytes => "Bytes".spec_bytes(),
        MemUnit::KB => "KB".spec_bytes(),
        MemUnit::MB => "MB".spec_bytes(),
        MemUnit::GB => "GB".spec_bytes(),
        MemUnit::TB => "TB".spec_bytes(),
    }
}

impl MemUnit {
    /// The unit's name as shown in a report.
    pub fn name(&self) -> (r: &'static str)
        ensures
            r.spec_bytes() == unit_name(*self),
    {
        match self {
            MemUnit::Bytes => "Bytes",
            MemUnit::KB => "KB",
            MemUnit::MB => "MB",
            MemUnit::GB => "GB",
            MemUnit::TB => "TB",
        }
    }

    /// How many bytes one of this unit holds.
    pub fn size(&self) -> (r: u128)
        ensures
            r == unit_size(*self),
    {
        match self {
            MemUnit::Bytes => 1,
            MemUnit::KB => 1024,
            MemUnit::MB => 1024 * 1024,
            MemUnit::GB => 1024 * 1024 * 1024,
            MemUnit::TB => 1024 * 1024 * 1024 * 1024,
        }
    }
}

/// Expresses `milli` thousandths of a byte in the largest unit of which it
/// holds at least one: the value in thousandths of that unit (rounded to the
/// nearest, ties to even) and the unit.
pub fn scale_amount(milli: u128) -> (r: (u128, MemUnit))
    ensures
        r.0 == scaled(milli as nat).0,
        r.1 == scaled(milli as nat).1,
{
    let unit = if milli >= 1000 * MemUnit::TB.size() {
        MemUnit::TB
    } else if milli >= 1000 * MemUnit::GB.size() {
        MemUnit::GB
    } else if milli >= 1000 * MemUnit::MB.size() {
        MemUnit::MB
    } else if milli >= 1000 * MemUnit::KB.size() {
        MemUnit::KB
    } else {
        MemUnit::Bytes
    };
    let d = unit.size();
    let q = milli / d;
    let rem = milli % d;
    if 2 * rem > d || (2 * rem == d && q % 2 == 1) {
        assert(rem > 0);
        assert(q < u128::MAX) by (nonlinear_arith)
            requires
                q == milli / d,
                rem == milli % d,
                rem > 0,
                d >= 1,
        ;
        (q + 1, unit)
    } else {
        (q, unit)
    }
}

/// Expresses a whole number of bytes in the largest unit of which it holds at
/// least one: the value in thousandths of that unit and the unit.
pub fn byte_to_mem_units(bytes: u64) -> (r: (u128, MemUnit))
    ensures
        r.0 == scaled(bytes as nat * 1000).0,
        r.1 == scaled(bytes as nat * 1000).1,
{
    scale_amount(bytes as u128 * 1000)
}

} // verus!
