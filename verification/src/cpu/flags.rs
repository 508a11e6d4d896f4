//! The flag register and the conditions that instructions test on it.

use vstd::prelude::*;
use crate::util::bitflag;
use crate::util::spec_bitflag;
use crate::util::spec_set_bitflag;

verus! {

/// Bit of the carry flag.
pub const CARRY: u8 = 1;

/// Bit of the zero flag.
pub const ZERO: u8 = 2;

/// Bit of the overflow flag.
pub const OVERFLOW: u8 = 6;

/// Bit of the negative flag: the sign of the last result.
pub const NEGATIVE: u8 = 7;

/// The flag register that holds the four flags and nothing else.
pub open spec fn spec_pack(carry: bool, zero: bool, overflow: bool, negative: bool) -> u8 {
    ((if carry {
        2int
    } else {
        0
    }) + (if zero {
        4int
    } else {
        0
    }) + (if overflow {
        64int
    } else {
        0
    }) + (if negative {
        128int
    } else {
        0
    })) as u8
}

/// The register with every bit cleared that is not one of the four flags.
pub open spec fn spec_masked(flags: u8) -> u8 {
    spec_pack(
        spec_bitflag(flags, CARRY),
        spec_bitflag(flags, ZERO),
        spec_bitflag(flags, OVERFLOW),
        spec_bitflag(flags, NEGATIVE),
    )
}

/// No bit is set but those of the four flags.
pub open spec fn valid_flags(flags: u8) -> bool {
    flags == spec_masked(flags)
}

/// A packed register gives back each flag that was packed, and is valid.
pub proof fn lemma_pack(carry: bool, zero: bool, overflow: bool, negative: bool)
    ensures
        spec_bitflag(spec_pack(carry, zero, overflow, negative), CARRY) == carry,
        spec_bitflag(spec_pack(carry, zero, overflow, negative), ZERO) == zero,
        spec_bitflag(spec_pack(carry, zero, overflow, negative), OVERFLOW) == overflow,
        spec_bitflag(spec_pack(carry, zero, overflow, negative), NEGATIVE) == negative,
        valid_flags(spec_pack(carry, zero, overflow, negative)),
{
}

/// Setting one of the four flags changes that flag alone, and a valid
/// register stays valid.
pub proof fn lemma_set_flag(flags: u8, index: u8, value: bool)
    requires
        valid_flags(flags),
        index == CARRY || index == ZERO || index == OVERFLOW || index == NEGATIVE,
    ensures
        valid_flags(spec_set_bitflag(flags, index, value)),
        spec_set_bitflag(flags, index, value) == spec_pack(
            if index == CARRY {
                value
            } else {
                spec_bitflag(flags, CARRY)
            },
            if index == ZERO {
                value
            } else {
                spec_bitflag(flags, ZERO)
            },
            if index == OVERFLOW {
                value
            } else {
                spec_bitflag(flags, OVERFLOW)
            },
            if index == NEGATIVE {
                value
            } else {
                spec_bitflag(flags, NEGATIVE)
            },
        ),
{
}

/// Pack four flags into a register.
pub fn pack(carry: bool, zero: bool, overflow: bool, negative: bool) -> (flags: u8)
    ensures
        flags == spec_pack(carry, zero, overflow, negative),
        valid_flags(flags),
{
    proof {
        lemma_pack(carry, zero, overflow, negative);
    }
    let c: u8 = if carry { 2 } else { 0 };
    let z: u8 = if zero { 4 } else { 0 };
    let o: u8 = if overflow { 64 } else { 0 };
    let n: u8 = if negative { 128 } else { 0 };
    c + z + o + n
}

/// Clear every bit that is not one of the four flags.
pub fn masked(flags: u8) -> (r: u8)
    ensures
        r == spec_masked(flags),
        valid_flags(r),
{
    pack(bitflag(flags, CARRY), bitflag(flags, ZERO), bitflag(flags, OVERFLOW), bitflag(flags, NEGATIVE))
}

/// Whether a condition holds of the four flags. Codes 0 to 14 are, in
/// order: zero, not zero, negative, not negative, positive, overflow, no
/// overflow, above, above or equal, below, below or equal, greater, greater
/// or equal, less, less or equal. No other code ever holds.
pub open spec fn spec_condition(
    code: u8,
    carry: bool,
    zero: bool,
    overflow: bool,
    negative: bool,
) -> bool {
    if code == 0x0 {
        zero
    } else if code == 0x1 {
        !zero
    } else if code == 0x2 {
        negative
    } else if code == 0x3 {
        !negative
    } else if code == 0x4 {
        !negative && !zero
    } else if code == 0x5 {
        overflow
    } else if code == 0x6 {
        !overflow
    } else if code == 0x7 {
        !carry && !zero
    } else if code == 0x8 {
        !carry
    } else if code == 0x9 {
        carry
    } else if code == 0xA {
        carry || zero
    } else if code == 0xB {
        overflow == negative && !zero
    } else if code == 0xC {
        overflow == negative
    } else if code == 0xD {
        overflow != negative
    } else if code == 0xE {
        overflow != negative || zero
    } else {
        false
    }
}

/// The condition that a flag register holds.
pub open spec fn spec_test(flags: u8, code: u8) -> bool {
    spec_condition(
        code,
        spec_bitflag(flags, CARRY),
        spec_bitflag(flags, ZERO),
        spec_bitflag(flags, OVERFLOW),
        spec_bitflag(flags, NEGATIVE),
    )
}

/// Test a given condition and return the result
pub fn condition(flags: u8, code: u8) -> (r: bool)
    ensures
        r == spec_test(flags, code),
{
    let carry = bitflag(flags, CARRY);
    let zero = bitflag(flags, ZERO);
    let overflow = bitflag(flags, OVERFLOW);
    let negative = bitflag(flags, NEGATIVE);
    match code {
        0x0 => zero,
        0x1 => !zero,
        0x2 => negative,
        0x3 => !negative,
        0x4 => !negative && !zero,
        0x5 => overflow,
        0x6 => !overflow,
        0x7 => !carry && !zero,
        0x8 => !carry,
        0x9 => carry,
        0xA => carry || zero,
        0xB => overflow == negative && !zero,
        0xC => overflow == negative,
        0xD => overflow != negative,
        0xE => overflow != negative || zero,
        _ => false,
    }
}

/// The name under which a condition is written.
pub open spec fn spec_condition_name(code: u8) -> &'static str {
    if code == 0x0 {
        "Z"
    } else if code == 0x1 {
        "NZ"
    } else if code == 0x2 {
        "N"
    } else if code == 0x3 {
        "NN"
    } else if code == 0x4 {
        "P"
    } else if code == 0x5 {
        "O"
    } else if code == 0x6 {
        "NO"
    } else if code == 0x7 {
        "A"
    } else if code == 0x8 {
        "AE"
    } else if code == 0x9 {
        "B"
    } else if code == 0xA {
        "BE"
    } else if code == 0xB {
        "G"
    } else if code == 0xC {
        "GE"
    } else if code == 0xD {
        "L"
    } else if code == 0xE {
        "LE"
    } else {
        "UNKNOWN"
    }
}

/// The name under which a condition is written.
pub fn condition_name(code: u8) -> (name: &'static str)
    ensures
        name == spec_condition_name(code),
{
    match code {
        0x0 => "Z",
        0x1 => "NZ",
        0x2 => "N",
        0x3 => "NN",
        0x4 => "P",
        0x5 => "O",
        0x6 => "NO",
        0x7 => "A",
        0x8 => "AE",
        0x9 => "B",
        0xA => "BE",
        0xB => "G",
        0xC => "GE",
        0xD => "L",
        0xE => "LE",
        _ => "UNKNOWN",
    }
}

} // verus!
