//! The arithmetic and logic unit: what each operator makes of two 16-bit
//! values, and which flags it raises.

use vstd::prelude::*;
use crate::util::signed;
use crate::util::spec_signed;
use crate::util::spec_unsigned;
use crate::util::unsigned;

verus! {

/// An operator of the arithmetic and logic unit. `Not` and `Neg` take the
/// second operand alone.
#[derive(Clone, Copy, Debug, PartialEq, Eq, Structural)]
pub enum AluOp {
    Add,
    Sub,
    And,
    Or,
    Xor,
    Mul,
    Div,
    Mod,
    Rem,
    Shl,
    Shr,
    Sar,
    Not,
    Neg,
}

/// What an operator gives: the value, and the carry and overflow flags.
#[derive(Clone, Copy, Debug, PartialEq, Eq, Structural)]
pub struct Outcome {
    pub value: i16,
    pub carry: bool,
    pub overflow: bool,
}

/// Whether a number can be held in sixteen bits with a sign.
pub open spec fn fits16(v: int) -> bool {
    -0x8000 <= v <= 0x7FFF
}

/// The sixteen-bit signed value that a number wraps to.
pub open spec fn wrap16(v: int) -> i16 {
    ((v + 0x8000) % 0x1_0000 - 0x8000) as i16
}

/// A number without its sign.
pub open spec fn magnitude(v: int) -> int {
    if v < 0 {
        -v
    } else {
        v
    }
}

/// The quotient rounded towards zero.
pub open spec fn quotient(a: int, b: int) -> int {
    if (a < 0) != (b < 0) {
        -(magnitude(a) / magnitude(b))
    } else {
        magnitude(a) / magnitude(b)
    }
}

/// The remainder that goes with `quotient`: it has the sign of the dividend.
pub open spec fn remainder(a: int, b: int) -> int {
    if a < 0 {
        -(magnitude(a) % magnitude(b))
    } else {
        magnitude(a) % magnitude(b)
    }
}

/// The remainder with the sign of the divisor: `(a % b + b) % b`.
pub open spec fn modulo(a: int, b: int) -> int {
    remainder(remainder(a, b) + b, b)
}

/// How far a shift moves: the low four bits of the operand.
pub open spec fn shift_distance(b: i16) -> u16 {
    (spec_unsigned(b) % 16) as u16
}

/// What an operator makes of `a` and `b`, or nothing where it divides by
/// zero. Overflow says that the signed result did not fit and was wrapped.
/// Carry says the same of the operation on the operands read as unsigned
/// numbers; after a division it says that a remainder was left.
pub open spec fn spec_alu(op: AluOp, a: i16, b: i16) -> Option<Outcome> {
    match op {
        AluOp::Add => Some(
            Outcome {
                value: wrap16(a + b),
                carry: spec_unsigned(a) + spec_unsigned(b) > 0xFFFF,
                overflow: !fits16(a + b),
            },
        ),
        AluOp::Sub => Some(
            Outcome {
                value: wrap16(a - b),
                carry: spec_unsigned(a) - spec_unsigned(b) < 0,
                overflow: !fits16(a - b),
            },
        ),
        AluOp::Mul => Some(
            Outcome {
                value: wrap16(a * b),
                carry: spec_unsigned(a) * spec_unsigned(b) > 0xFFFF,
                overflow: !fits16(a * b),
            },
        ),
        AluOp::Div => if b == 0 {
            None
        } else {
            Some(
                Outcome {
                    value: wrap16(quotient(a as int, b as int)),
                    carry: remainder(a as int, b as int) != 0,
                    overflow: !fits16(quotient(a as int, b as int)),
                },
            )
        },
        AluOp::Mod => if b == 0 {
            None
        } else {
            Some(Outcome { value: modulo(a as int, b as int) as i16, carry: false, overflow: false })
        },
        AluOp::Rem => if b == 0 {
            None
        } else {
            Some(
                Outcome { value: remainder(a as int, b as int) as i16, carry: false, overflow: false },
            )
        },
        AluOp::And => Some(Outcome { value: a & b, carry: false, overflow: false }),
        AluOp::Or => Some(Outcome { value: a | b, carry: false, overflow: false }),
        AluOp::Xor => Some(Outcome { value: a ^ b, carry: false, overflow: false }),
        AluOp::Shl => Some(
            Outcome {
                value: spec_signed(spec_unsigned(a) << shift_distance(b)),
                carry: false,
                overflow: false,
            },
        ),
        AluOp::Shr => Some(
            Outcome {
                value: spec_signed(spec_unsigned(a) >> shift_distance(b)),
                carry: false,
                overflow: false,
            },
        ),
        AluOp::Sar => Some(Outcome { value: a >> shift_distance(b), carry: false, overflow: false }),
        AluOp::Not => Some(Outcome { value: !b, carry: false, overflow: false }),
        AluOp::Neg => Some(Outcome { value: wrap16(-b), carry: false, overflow: false }),
    }
}

/// Wrap a number to sixteen bits.
pub fn wrap(v: i32) -> (r: i16)
    ensures
        r == wrap16(v as int),
        fits16(v as int) ==> r == v,
{
    let shifted: i64 = v as i64 + 0x8000 + 0x1_0000_0000;
    ((shifted % 0x1_0000) - 0x8000) as i16
}

/// The quotient rounded towards zero, and the remainder with the sign of
/// the dividend.
pub fn divide(a: i32, b: i32) -> (r: (i32, i32))
    requires
        b != 0,
        -0x1_0000 <= a <= 0x1_0000,
        -0x1_0000 <= b <= 0x1_0000,
    ensures
        r.0 == quotient(a as int, b as int),
        r.1 == remainder(a as int, b as int),
        magnitude(r.0 as int) <= magnitude(a as int),
        magnitude(r.1 as int) < magnitude(b as int),
{
    let ma: u32 = if a < 0 { (-a) as u32 } else { a as u32 };
    let mb: u32 = if b < 0 { (-b) as u32 } else { b as u32 };
    let q: u32 = ma / mb;
    let m: u32 = ma % mb;
    assert(q <= ma) by (nonlinear_arith)
        requires
            q == ma / mb,
            mb >= 1,
            ma >= 0,
    ;
    let quot: i32 = if (a < 0) != (b < 0) { -(q as i32) } else { q as i32 };
    let rem: i32 = if a < 0 { -(m as i32) } else { m as i32 };
    (quot, rem)
}

/// Add two values and set the flags accordingly
pub fn alu_add(a: i16, b: i16) -> (r: Outcome)
    ensures
        spec_alu(AluOp::Add, a, b) == Some(r),
        r.overflow <==> !fits16(a + b),
        r.carry <==> spec_unsigned(a) + spec_unsigned(b) > 0xFFFF,
        r.value == wrap16(a + b),
{
    let sum: i32 = a as i32 + b as i32;
    Outcome {
        value: wrap(sum),
        carry: unsigned(a) as u32 + unsigned(b) as u32 > 0xFFFF,
        overflow: sum < -0x8000 || sum > 0x7FFF,
    }
}

/// Sub two values and set the flags accordingly
pub fn alu_sub(a: i16, b: i16) -> (r: Outcome)
    ensures
        spec_alu(AluOp::Sub, a, b) == Some(r),
        r.overflow <==> !fits16(a - b),
        r.carry <==> spec_unsigned(a) < spec_unsigned(b),
        r.value == wrap16(a - b),
{
    let difference: i32 = a as i32 - b as i32;
    Outcome {
        value: wrap(difference),
        carry: unsigned(a) < unsigned(b),
        overflow: difference < -0x8000 || difference > 0x7FFF,
    }
}

/// Multiply two values and set the flags accordingly
pub fn alu_mul(a: i16, b: i16) -> (r: Outcome)
    ensures
        spec_alu(AluOp::Mul, a, b) == Some(r),
        r.overflow <==> !fits16(a * b),
        r.carry <==> spec_unsigned(a) * spec_unsigned(b) > 0xFFFF,
        r.value == wrap16(a * b),
{
    assert(-0x4000_0000 <= a * b <= 0x4000_0000) by (nonlinear_arith)
        requires
            -0x8000 <= a <= 0x7FFF,
            -0x8000 <= b <= 0x7FFF,
    ;
    let ua: u32 = unsigned(a) as u32;
    let ub: u32 = unsigned(b) as u32;
    assert(0 <= ua * ub <= 0xFFFF * 0xFFFF) by (nonlinear_arith)
        requires
            0 <= ua <= 0xFFFF,
            0 <= ub <= 0xFFFF,
    ;
    let product: i32 = a as i32 * b as i32;
    Outcome {
        value: wrap(product),
        carry: ua * ub > 0xFFFF,
        overflow: product < -0x8000 || product > 0x7FFF,
    }
}

/// Divide two values and set the flags accordingly
pub fn alu_div(a: i16, b: i16) -> (r: Outcome)
    requires
        b != 0,
    ensures
        spec_alu(AluOp::Div, a, b) == Some(r),
        r.overflow <==> !fits16(quotient(a as int, b as int)),
        r.carry <==> remainder(a as int, b as int) != 0,
        r.value == wrap16(quotient(a as int, b as int)),
{
    let (q, m) = divide(a as i32, b as i32);
    Outcome { value: wrap(q), carry: m != 0, overflow: q < -0x8000 || q > 0x7FFF }
}

/// A value with no flag raised.
fn plain(value: i16) -> (r: Option<Outcome>)
    ensures
        r == Some(Outcome { value, carry: false, overflow: false }),
{
    Some(Outcome { value, carry: false, overflow: false })
}

/// Apply an operator, unless it divides by zero.
pub fn alu(op: AluOp, a: i16, b: i16) -> (r: Option<Outcome>)
    ensures
        r == spec_alu(op, a, b),
        r is None <==> (op == AluOp::Div || op == AluOp::Mod || op == AluOp::Rem) && b == 0,
{
    match op {
        AluOp::Add => Some(alu_add(a, b)),
        AluOp::Sub => Some(alu_sub(a, b)),
        AluOp::Mul => Some(alu_mul(a, b)),
        AluOp::Div => if b == 0 {
            None
        } else {
            Some(alu_div(a, b))
        },
        AluOp::Mod => if b == 0 {
            None
        } else {
            let (_, m) = divide(a as i32, b as i32);
            let (_, f) = divide(m + b as i32, b as i32);
            plain(f as i16)
        },
        AluOp::Rem => if b == 0 {
            None
        } else {
            let (_, m) = divide(a as i32, b as i32);
            plain(m as i16)
        },
        AluOp::And => plain(a & b),
        AluOp::Or => plain(a | b),
        AluOp::Xor => plain(a ^ b),
        AluOp::Shl => plain(signed(unsigned(a) << (unsigned(b) % 16))),
        AluOp::Shr => plain(signed(unsigned(a) >> (unsigned(b) % 16))),
        AluOp::Sar => plain(a >> (unsigned(b) % 16)),
        AluOp::Not => plain(!b),
        AluOp::Neg => plain(wrap(-(b as i32))),
    }
}

} // verus!
