//! The flagged ALU: what each operation computes and how it leaves the
//! condition flags, and when each branch condition holds.

use vstd::prelude::*;
use crate::isa::AluOp;
use crate::isa::Cond;
use crate::isa::UnaryOp;

verus! {

/// The condition flags.
#[derive(Clone, Copy, Debug, PartialEq, Eq, Structural)]
pub struct Flags {
    /// Z: the result was zero.
    pub zero: bool,
    /// N: bit 15 of the result.
    pub negative: bool,
    /// C: carry out of an addition or a left shift, borrow out of a
    /// subtraction, or the bit that a right shift pushed out.
    pub carry: bool,
    /// V: the signed reading of the result is not the true signed result.
    pub overflow: bool,
}

/// What the ALU hands back: the result word and the flags that follow it.
#[derive(Clone, Copy, Debug, PartialEq, Eq, Structural)]
pub struct AluResult {
    pub value: u16,
    pub flags: Flags,
}

/// A word read as a two's complement number.
pub open spec fn signed(word: u16) -> int {
    if word >= 0x8000 {
        word - 0x10000
    } else {
        word as int
    }
}

/// A number reduced to a word, modulo 65,536.
pub open spec fn wrap(n: int) -> u16 {
    (n % 0x10000) as u16
}

/// A flag as a number.
pub open spec fn bit(flag: bool) -> int {
    if flag {
        1
    } else {
        0
    }
}

/// The result and flags of an arithmetic operation, from its true results
/// over the unsigned and over the signed reading of its operands. C is set
/// where the unsigned result does not fit a word, V where the signed one
/// does not.
pub open spec fn judge(unsigned_result: int, signed_result: int) -> AluResult {
    let value = wrap(unsigned_result);
    AluResult {
        value,
        flags: Flags {
            zero: value == 0,
            negative: value >= 0x8000,
            carry: unsigned_result < 0 || unsigned_result > 0xffff,
            overflow: signed_result < -0x8000 || signed_result > 0x7fff,
        },
    }
}

/// The result and flags of an operation that cannot overflow: Z and N follow
/// the value, C is as given, V is clear.
pub open spec fn settle(value: u16, carry: bool) -> AluResult {
    AluResult {
        value,
        flags: Flags { zero: value == 0, negative: value >= 0x8000, carry, overflow: false },
    }
}

/// What a two-operand operation computes from `a`, `b` and the carry flag.
pub open spec fn alu_result(op: AluOp, a: u16, b: u16, carry: bool) -> AluResult {
    match op {
        AluOp::Add => judge(a + b, signed(a) + signed(b)),
        AluOp::Sub => judge(a - b, signed(a) - signed(b)),
        AluOp::Addc => judge(a + b + bit(carry), signed(a) + signed(b) + bit(carry)),
        AluOp::Subc => judge(a - b - bit(carry), signed(a) - signed(b) - bit(carry)),
        AluOp::And => settle(a & b, false),
        AluOp::Or => settle(a | b, false),
        AluOp::Xor => settle(a ^ b, false),
        AluOp::Nand => settle(!(a & b), false),
    }
}

/// What a one-operand operation computes from `a` and the carry flag. Shifts
/// and rotates move by one bit; `shlc` and `shrc` shift the carry flag in.
pub open spec fn unary_result(op: UnaryOp, a: u16, carry: bool) -> AluResult {
    match op {
        UnaryOp::Not => settle(!a, false),
        UnaryOp::Shl => judge(2 * a, 2 * signed(a)),
        UnaryOp::Shr => settle(a / 2, a % 2 == 1),
        UnaryOp::Sshr => settle(
            (a / 2 + if a >= 0x8000 {
                0x8000int
            } else {
                0
            }) as u16,
            a % 2 == 1,
        ),
        UnaryOp::Rotl => settle(((2 * a) % 0x10000 + a / 0x8000) as u16, a >= 0x8000),
        UnaryOp::Rotr => settle((a / 2 + (a % 2) * 0x8000) as u16, a % 2 == 1),
        UnaryOp::Shlc => judge(2 * a + bit(carry), 2 * signed(a) + bit(carry)),
        UnaryOp::Shrc => settle((a / 2 + bit(carry) * 0x8000) as u16, a % 2 == 1),
    }
}

/// When a branch condition holds of the flags.
pub open spec fn cond_holds(cond: Cond, flags: Flags) -> bool {
    match cond {
        Cond::Equal => flags.zero,
        Cond::NotEqual => !flags.zero,
        Cond::Positive => !flags.negative && !flags.zero,
        Cond::Negative => flags.negative,
        Cond::Carry => flags.carry,
        Cond::NoCarry => !flags.carry,
        Cond::Overflow => flags.overflow,
        Cond::Greater => !flags.zero && flags.negative == flags.overflow,
        Cond::GreaterEqual => flags.negative == flags.overflow,
        Cond::Less => flags.negative != flags.overflow,
        Cond::LessEqual => flags.zero || flags.negative != flags.overflow,
        Cond::Above => !flags.carry && !flags.zero,
        Cond::AboveEqual => !flags.carry,
        Cond::Below => flags.carry,
        Cond::BelowEqual => flags.carry || flags.zero,
    }
}

fn signed_of(word: u16) -> (n: i32)
    ensures
        n == signed(word),
{
    if word >= 0x8000 {
        (word as i32) - 0x10000
    } else {
        word as i32
    }
}

fn judged(unsigned_result: i32, signed_result: i32) -> (r: AluResult)
    requires
        -0x20000 <= unsigned_result <= 0x20000,
    ensures
        r == judge(unsigned_result as int, signed_result as int),
{
    let lifted: i32 = unsigned_result + 0x20000;
    let value: u16 = (lifted % 0x10000) as u16;
    AluResult {
        value,
        flags: Flags {
            zero: value == 0,
            negative: value >= 0x8000,
            carry: unsigned_result < 0 || unsigned_result > 0xffff,
            overflow: signed_result < -0x8000 || signed_result > 0x7fff,
        },
    }
}

fn settled(value: u16, carry: bool) -> (r: AluResult)
    ensures
        r == settle(value, carry),
{
    AluResult {
        value,
        flags: Flags { zero: value == 0, negative: value >= 0x8000, carry, overflow: false },
    }
}

/// Performs a two-operand operation.
pub fn alu(op: AluOp, a: u16, b: u16, carry: bool) -> (r: AluResult)
    ensures
        r == alu_result(op, a, b, carry),
{
    let c: i32 = if carry {
        1
    } else {
        0
    };
    match op {
        AluOp::Add => judged(a as i32 + b as i32, signed_of(a) + signed_of(b)),
        AluOp::Sub => judged(a as i32 - b as i32, signed_of(a) - signed_of(b)),
        AluOp::Addc => judged(a as i32 + b as i32 + c, signed_of(a) + signed_of(b) + c),
        AluOp::Subc => judged(a as i32 - b as i32 - c, signed_of(a) - signed_of(b) - c),
        AluOp::And => settled(a & b, false),
        AluOp::Or => settled(a | b, false),
        AluOp::Xor => settled(a ^ b, false),
        AluOp::Nand => settled(!(a & b), false),
    }
}

/// Performs a one-operand operation.
pub fn unary(op: UnaryOp, a: u16, carry: bool) -> (r: AluResult)
    ensures
        r == unary_result(op, a, carry),
{
    let c: i32 = if carry {
        1
    } else {
        0
    };
    let top: u16 = if a >= 0x8000 {
        0x8000
    } else {
        0
    };
    match op {
        UnaryOp::Not => settled(!a, false),
        UnaryOp::Shl => judged(2 * (a as i32), 2 * signed_of(a)),
        UnaryOp::Shr => settled(a / 2, a % 2 == 1),
        UnaryOp::Sshr => settled(a / 2 + top, a % 2 == 1),
        UnaryOp::Rotl => settled((((2 * (a as u32)) % 0x10000) as u16) + a / 0x8000, a >= 0x8000),
        UnaryOp::Rotr => settled(a / 2 + (a % 2) * 0x8000, a % 2 == 1),
        UnaryOp::Shlc => judged(2 * (a as i32) + c, 2 * signed_of(a) + c),
        UnaryOp::Shrc => settled(a / 2 + (c as u16) * 0x8000, a % 2 == 1),
    }
}

/// Tests a branch condition against the flags.
pub fn branch_taken(cond: Cond, flags: Flags) -> (taken: bool)
    ensures
        taken == cond_holds(cond, flags),
{
    match cond {
        Cond::Equal => flags.zero,
        Cond::NotEqual => !flags.zero,
        Cond::Positive => !flags.negative && !flags.zero,
        Cond::Negative => flags.negative,
        Cond::Carry => flags.carry,
        Cond::NoCarry => !flags.carry,
        Cond::Overflow => flags.overflow,
        Cond::Greater => !flags.zero && flags.negative == flags.overflow,
        Cond::GreaterEqual => flags.negative == flags.overflow,
        Cond::Less => flags.negative != flags.overflow,
        Cond::LessEqual => flags.zero || flags.negative != flags.overflow,
        Cond::Above => !flags.carry && !flags.zero,
        Cond::AboveEqual => !flags.carry,
        Cond::Below => flags.carry,
        Cond::BelowEqual => flags.carry || flags.zero,
    }
}

/// After `sub` of `b` from `a`, the branch conditions compare `a` with `b`:
/// the signed ones by the two's complement reading, the unsigned ones by the
/// words themselves.
pub proof fn lemma_conditions_after_sub(a: u16, b: u16, carry: bool)
    ensures
        ({
            let flags = alu_result(AluOp::Sub, a, b, carry).flags;
            &&& cond_holds(Cond::Equal, flags) <==> a == b
            &&& cond_holds(Cond::NotEqual, flags) <==> a != b
            &&& cond_holds(Cond::Greater, flags) <==> signed(a) > signed(b)
            &&& cond_holds(Cond::GreaterEqual, flags) <==> signed(a) >= signed(b)
            &&& cond_holds(Cond::Less, flags) <==> signed(a) < signed(b)
            &&& cond_holds(Cond::LessEqual, flags) <==> signed(a) <= signed(b)
            &&& cond_holds(Cond::Above, flags) <==> a > b
            &&& cond_holds(Cond::AboveEqual, flags) <==> a >= b
            &&& cond_holds(Cond::Below, flags) <==> a < b
            &&& cond_holds(Cond::BelowEqual, flags) <==> a <= b
        }),
{
}

} // verus!
