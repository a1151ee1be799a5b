//! The ALU and its flags.

use bemu::alu::alu;
use bemu::alu::branch_taken;
use bemu::alu::unary;
use bemu::alu::AluResult;
use bemu::alu::Flags;
use bemu::isa::AluOp;
use bemu::isa::Cond;
use bemu::isa::UnaryOp;

/// A result with the flags written as the letters of those that are set.
fn result(value: u16, set: &str) -> AluResult {
    AluResult {
        value,
        flags: Flags {
            zero: set.contains('Z'),
            negative: set.contains('N'),
            carry: set.contains('C'),
            overflow: set.contains('V'),
        },
    }
}

#[test]
fn add_sets_carry_and_overflow() {
    assert_eq!(alu(AluOp::Add, 20, 22, false), result(42, ""));
    assert_eq!(alu(AluOp::Add, 20, 22, true), result(42, ""));
    assert_eq!(alu(AluOp::Add, 0, 0, false), result(0, "Z"));
    assert_eq!(alu(AluOp::Add, 0xffff, 1, false), result(0, "ZC"));
    assert_eq!(alu(AluOp::Add, 0x7fff, 1, false), result(0x8000, "NV"));
    assert_eq!(alu(AluOp::Add, 0x8000, 0x8000, false), result(0, "ZCV"));
    assert_eq!(alu(AluOp::Add, 0xffff, 0xffff, false), result(0xfffe, "NC"));
    assert_eq!(alu(AluOp::Add, 0x8000, 0xffff, false), result(0x7fff, "CV"));
}

#[test]
fn addc_adds_the_carry_in() {
    assert_eq!(alu(AluOp::Addc, 0x5555, 0x5556, true), result(0xaaac, "NV"));
    assert_eq!(alu(AluOp::Addc, 0x5555, 0x5556, false), result(0xaaab, "NV"));
    assert_eq!(alu(AluOp::Addc, 0xffff, 0, true), result(0, "ZC"));
    assert_eq!(alu(AluOp::Addc, 0xffff, 0xffff, true), result(0xffff, "NC"));
    assert_eq!(alu(AluOp::Addc, 0x7fff, 0, true), result(0x8000, "NV"));
}

#[test]
fn sub_sets_carry_on_borrow() {
    assert_eq!(alu(AluOp::Sub, 12, 5, false), result(7, ""));
    assert_eq!(alu(AluOp::Sub, 5, 12, false), result(0xfff9, "NC"));
    assert_eq!(alu(AluOp::Sub, 5, 5, true), result(0, "Z"));
    assert_eq!(alu(AluOp::Sub, 0, 1, false), result(0xffff, "NC"));
    assert_eq!(alu(AluOp::Sub, 0x8000, 1, false), result(0x7fff, "V"));
    assert_eq!(alu(AluOp::Sub, 0x7fff, 0xffff, false), result(0x8000, "NCV"));
    assert_eq!(alu(AluOp::Sub, 0, 0x8000, false), result(0x8000, "NCV"));
}

#[test]
fn subc_subtracts_the_borrow_in() {
    assert_eq!(alu(AluOp::Subc, 5, 5, true), result(0xffff, "NC"));
    assert_eq!(alu(AluOp::Subc, 5, 5, false), result(0, "Z"));
    assert_eq!(alu(AluOp::Subc, 0, 0xffff, true), result(0, "ZC"));
    assert_eq!(alu(AluOp::Subc, 0x8000, 0, true), result(0x7fff, "V"));
    assert_eq!(alu(AluOp::Subc, 10, 3, true), result(6, ""));
}

#[test]
fn logic_clears_carry_and_overflow() {
    assert_eq!(alu(AluOp::And, 6, 3, true), result(2, ""));
    assert_eq!(alu(AluOp::And, 0xf0f0, 0x0f0f, true), result(0, "Z"));
    assert_eq!(alu(AluOp::Or, 10, 12, true), result(14, ""));
    assert_eq!(alu(AluOp::Or, 0x8000, 1, false), result(0x8001, "N"));
    assert_eq!(alu(AluOp::Xor, 21, 8, true), result(29, ""));
    assert_eq!(alu(AluOp::Xor, 0xabcd, 0xabcd, false), result(0, "Z"));
    assert_eq!(alu(AluOp::Nand, 2, 2, true), result(0xfffd, "N"));
    assert_eq!(alu(AluOp::Nand, 0xffff, 0xffff, false), result(0, "Z"));
    assert_eq!(unary(UnaryOp::Not, 0xfffd, true), result(2, ""));
    assert_eq!(unary(UnaryOp::Not, 0, false), result(0xffff, "N"));
    assert_eq!(unary(UnaryOp::Not, 0xffff, false), result(0, "Z"));
}

#[test]
fn left_shifts_carry_out_bit_15() {
    assert_eq!(unary(UnaryOp::Shl, 0xaaaa, false), result(0x5554, "CV"));
    assert_eq!(unary(UnaryOp::Shl, 0xaaaa, true), result(0x5554, "CV"));
    assert_eq!(unary(UnaryOp::Shl, 0x0001, false), result(0x0002, ""));
    assert_eq!(unary(UnaryOp::Shl, 0x4000, false), result(0x8000, "NV"));
    assert_eq!(unary(UnaryOp::Shl, 0xc000, false), result(0x8000, "NC"));
    assert_eq!(unary(UnaryOp::Shl, 0x8000, false), result(0, "ZCV"));
    assert_eq!(unary(UnaryOp::Shlc, 0x0050, true), result(0x00a1, ""));
    assert_eq!(unary(UnaryOp::Shlc, 0x0050, false), result(0x00a0, ""));
    assert_eq!(unary(UnaryOp::Shlc, 0x8000, true), result(0x0001, "CV"));
    assert_eq!(unary(UnaryOp::Rotl, 0xaaaa, false), result(0x5555, "C"));
    assert_eq!(unary(UnaryOp::Rotl, 0x5555, true), result(0xaaaa, "N"));
    assert_eq!(unary(UnaryOp::Rotl, 0x8000, false), result(0x0001, "C"));
    assert_eq!(unary(UnaryOp::Rotl, 0, true), result(0, "Z"));
}

#[test]
fn right_shifts_carry_out_bit_0() {
    assert_eq!(unary(UnaryOp::Shr, 0x5555, false), result(0x2aaa, "C"));
    assert_eq!(unary(UnaryOp::Shr, 0x8000, true), result(0x4000, ""));
    assert_eq!(unary(UnaryOp::Shr, 0x0001, false), result(0, "ZC"));
    assert_eq!(unary(UnaryOp::Sshr, 0xaaaa, false), result(0xd555, "N"));
    assert_eq!(unary(UnaryOp::Sshr, 0x5555, false), result(0x2aaa, "C"));
    assert_eq!(unary(UnaryOp::Sshr, 0xffff, false), result(0xffff, "NC"));
    assert_eq!(unary(UnaryOp::Rotr, 0x5555, false), result(0xaaaa, "NC"));
    assert_eq!(unary(UnaryOp::Rotr, 0xaaaa, true), result(0x5555, ""));
    assert_eq!(unary(UnaryOp::Rotr, 0x0001, false), result(0x8000, "NC"));
    assert_eq!(unary(UnaryOp::Shrc, 0x00a0, true), result(0x8050, "N"));
    assert_eq!(unary(UnaryOp::Shrc, 0x00a0, false), result(0x0050, ""));
    assert_eq!(unary(UnaryOp::Shrc, 0x0001, true), result(0x8000, "NC"));
    assert_eq!(unary(UnaryOp::Shrc, 0x0001, false), result(0, "ZC"));
}

#[test]
fn conditions_read_the_flags() {
    let flags = |set: &str| result(0, set).flags;
    let table: [(Cond, [bool; 6]); 15] = [
        // The flags, in turn: none, Z, N, C, V, N and V.
        (Cond::Equal, [false, true, false, false, false, false]),
        (Cond::NotEqual, [true, false, true, true, true, true]),
        (Cond::Positive, [true, false, false, true, true, false]),
        (Cond::Negative, [false, false, true, false, false, true]),
        (Cond::Carry, [false, false, false, true, false, false]),
        (Cond::NoCarry, [true, true, true, false, true, true]),
        (Cond::Overflow, [false, false, false, false, true, true]),
        (Cond::Greater, [true, false, false, true, false, true]),
        (Cond::GreaterEqual, [true, true, false, true, false, true]),
        (Cond::Less, [false, false, true, false, true, false]),
        (Cond::LessEqual, [false, true, true, false, true, false]),
        (Cond::Above, [true, false, true, false, true, true]),
        (Cond::AboveEqual, [true, true, true, false, true, true]),
        (Cond::Below, [false, false, false, true, false, false]),
        (Cond::BelowEqual, [false, true, false, true, false, false]),
    ];
    for (cond, expected) in table {
        let sets = ["", "Z", "N", "C", "V", "NV"];
        for (set, taken) in sets.iter().zip(expected) {
            assert_eq!(branch_taken(cond, flags(set)), taken, "{:?} with {:?}", cond, set);
        }
    }
}

#[test]
fn conditions_after_sub_compare_the_operands() {
    let samples: [u16; 9] = [0, 1, 2, 0x7ffe, 0x7fff, 0x8000, 0x8001, 0xfffe, 0xffff];
    for a in samples {
        for b in samples {
            let flags = alu(AluOp::Sub, a, b, false).flags;
            let (sa, sb) = (a as i16, b as i16);
            assert_eq!(branch_taken(Cond::Equal, flags), a == b);
            assert_eq!(branch_taken(Cond::NotEqual, flags), a != b);
            assert_eq!(branch_taken(Cond::Greater, flags), sa > sb);
            assert_eq!(branch_taken(Cond::GreaterEqual, flags), sa >= sb);
            assert_eq!(branch_taken(Cond::Less, flags), sa < sb);
            assert_eq!(branch_taken(Cond::LessEqual, flags), sa <= sb);
            assert_eq!(branch_taken(Cond::Above, flags), a > b);
            assert_eq!(branch_taken(Cond::AboveEqual, flags), a >= b);
            assert_eq!(branch_taken(Cond::Below, flags), a < b);
            assert_eq!(branch_taken(Cond::BelowEqual, flags), a <= b);
        }
    }
}
