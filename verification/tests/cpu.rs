//! End-to-end programs: each test assembles a short program, boots a machine
//! on it, runs it to `halt` and checks the word left in r0.

use bemu::cpu::Status;
use bemu::emulator::Emulator;
use bemu::isa::encode;
use bemu::isa::AluOp;
use bemu::isa::Cond;
use bemu::isa::Instr;
use bemu::isa::UnaryOp;
use bemu::sprite::SpriteMap;
use bemu::tile::TileMap;

const FUEL: u64 = 1_000_000;

fn alu(op: AluOp, rd: u8, rs: u8, rt: u8) -> Instr {
    Instr::Alu { op, rd, rs, rt }
}

fn unary(op: UnaryOp, rd: u8, rs: u8) -> Instr {
    Instr::Unary { op, rd, rs }
}

fn addi(rd: u8, rs: u8, imm: i8) -> Instr {
    Instr::Addi { rd, rs, imm }
}

fn movi(rd: u8, imm: u8) -> Instr {
    Instr::Movi { rd, imm }
}

fn lui(rd: u8, imm: u8) -> Instr {
    Instr::Lui { rd, imm }
}

fn lw(rd: u8, rs: u8, imm: i8) -> Instr {
    Instr::Lw { rd, rs, imm }
}

fn sw(rd: u8, rs: u8, imm: i8) -> Instr {
    Instr::Sw { rd, rs, imm }
}

fn swi(addr: u16, rs: u8) -> Instr {
    Instr::Swi { rs, addr }
}

fn jmp(offset: i16) -> Instr {
    Instr::Jmp { offset }
}

fn jalr(rd: u8, rs: u8) -> Instr {
    Instr::Jalr { rd, rs }
}

fn branch(cond: Cond, offset: i8) -> Instr {
    Instr::Branch { cond, offset }
}

const HALT: Instr = Instr::Halt;

/// The program image of a list of instructions: one little-endian word each.
fn image(program: &[Instr]) -> Vec<u8> {
    let mut bytes = Vec::new();
    for instr in program {
        let word = encode(*instr).expect("the instruction is well formed");
        bytes.push((word & 0xff) as u8);
        bytes.push((word >> 8) as u8);
    }
    bytes
}

fn boot(program: &[Instr]) -> Emulator {
    Emulator::new(&image(program), TileMap::new(128), SpriteMap::new(8))
}

/// Runs a program to its end and returns r0; the machine must have halted.
fn run(program: &[Instr]) -> u16 {
    let mut cpu = boot(program);
    let result = cpu.run(FUEL);
    assert_eq!(cpu.cpu().status(), Status::Halted);
    result.expect("the program halts")
}

/// A test of one branch: sets the flags by `sub` of `b` from `a`, then
/// branches on `cond`. Leaves 0 in r0 where the branch went the way
/// `expect_taken` says, 1 where it did not.
fn branch_program(a: u16, b: u16, cond: Cond, expect_taken: bool) -> Vec<Instr> {
    let (taken, fallen) = if expect_taken { (0, 1) } else { (1, 0) };
    vec![
        movi(1, (a & 0xff) as u8),
        lui(1, (a >> 8) as u8),
        movi(2, (b & 0xff) as u8),
        lui(2, (b >> 8) as u8),
        alu(AluOp::Sub, 3, 1, 2),
        branch(cond, 2),
        movi(0, fallen),
        HALT,
        movi(0, taken),
        HALT,
    ]
}

/// Runs `cond` after comparing each pair, and returns the sum of the r0s:
/// 0 where every branch went as expected.
fn check_branch(cond: Cond, cases: &[(u16, u16, bool)]) -> u16 {
    let mut failures = 0;
    for (a, b, taken) in cases {
        failures += run(&branch_program(*a, *b, cond, *taken));
    }
    failures
}

#[test]
fn addi_test() {
    let result = run(&[addi(0, 0, 2), addi(0, 0, 3), addi(0, 0, 4), addi(0, 0, 5), HALT]);
    assert_eq!(result, 14);
}

#[test]
fn sw_lw_test() {
    let result = run(&[movi(1, 42), movi(2, 100), sw(2, 1, 3), lw(0, 2, 3), HALT]);
    assert_eq!(result, 42);
}

#[test]
fn swi_test() {
    let result = run(&[movi(1, 15), swi(200, 1), movi(2, 200), lw(0, 2, 0), HALT]);
    assert_eq!(result, 15);
}

#[test]
fn lui_test() {
    let result = run(&[lui(0, 2), HALT]);
    assert_eq!(result, 512);
}

#[test]
fn movi_test() {
    let result = run(&[movi(0, 1), lui(0, 2), HALT]);
    assert_eq!(result, 513);
}

#[test]
fn jalr_test() {
    let result = run(&[
        movi(1, 4),
        jalr(7, 1),
        HALT,
        movi(0, 1),
        movi(0, 42),
        jalr(6, 7),
        movi(0, 2),
        HALT,
    ]);
    assert_eq!(result, 42);
}

#[test]
fn nand_test() {
    let result = run(&[movi(1, 2), alu(AluOp::Nand, 0, 1, 1), HALT]);
    assert_eq!(result as i16, -3);
}

#[test]
fn add_test() {
    let result = run(&[movi(1, 20), movi(2, 22), alu(AluOp::Add, 0, 1, 2), HALT]);
    assert_eq!(result, 42);
}

#[test]
fn addc_test() {
    let result = run(&[
        movi(1, 0xff),
        lui(1, 0xff),
        movi(2, 1),
        movi(4, 0x55),
        lui(4, 0x55),
        movi(5, 0x56),
        lui(5, 0x55),
        alu(AluOp::Add, 3, 1, 2),
        alu(AluOp::Addc, 0, 4, 5),
        HALT,
    ]);
    assert_eq!(result, 0xAAAC);
}

#[test]
fn or_test() {
    let result = run(&[movi(1, 10), movi(2, 12), alu(AluOp::Or, 0, 1, 2), HALT]);
    assert_eq!(result, 14);
}

#[test]
fn subc_test() {
    let result = run(&[
        movi(1, 0),
        movi(2, 1),
        movi(4, 5),
        alu(AluOp::Sub, 3, 1, 2),
        alu(AluOp::Subc, 0, 4, 4),
        HALT,
    ]);
    assert_eq!(result, 0xFFFF);
}

#[test]
fn and_test() {
    let result = run(&[movi(1, 6), movi(2, 3), alu(AluOp::And, 0, 1, 2), HALT]);
    assert_eq!(result, 2);
}

#[test]
fn sub_test() {
    let result = run(&[movi(1, 5), movi(2, 12), alu(AluOp::Sub, 0, 1, 2), HALT]);
    assert_eq!(result as i16, -7);
}

#[test]
fn xor_test() {
    let result = run(&[movi(1, 21), movi(2, 8), alu(AluOp::Xor, 0, 1, 2), HALT]);
    assert_eq!(result, 29);
}

#[test]
fn not_test() {
    let result = run(&[movi(1, 0xfd), lui(1, 0xff), unary(UnaryOp::Not, 0, 1), HALT]);
    assert_eq!(result, 2);
}

#[test]
fn shl_test() {
    let result = run(&[movi(1, 0xaa), lui(1, 0xaa), unary(UnaryOp::Shl, 0, 1), HALT]);
    assert_eq!(result, 0x5554);
}

#[test]
fn shr_test() {
    let result = run(&[movi(1, 0x55), lui(1, 0x55), unary(UnaryOp::Shr, 0, 1), HALT]);
    assert_eq!(result, 0x2AAA);
}

#[test]
fn rotl_test() {
    let result = run(&[movi(1, 0xaa), lui(1, 0xaa), unary(UnaryOp::Rotl, 0, 1), HALT]);
    assert_eq!(result, 0x5555);
}

#[test]
fn rotr_test() {
    let result = run(&[movi(1, 0x55), lui(1, 0x55), unary(UnaryOp::Rotr, 0, 1), HALT]);
    assert_eq!(result, 0xAAAA);
}

#[test]
fn sshr_test() {
    let result = run(&[movi(1, 0xaa), lui(1, 0xaa), unary(UnaryOp::Sshr, 0, 1), HALT]);
    assert_eq!(result, 0xD555);
}

#[test]
fn shrc_test() {
    let result = run(&[
        movi(1, 0xff),
        lui(1, 0xff),
        movi(2, 1),
        movi(4, 0xa0),
        alu(AluOp::Add, 3, 1, 2),
        unary(UnaryOp::Shrc, 0, 4),
        HALT,
    ]);
    assert_eq!(result, 0x8050);
}

#[test]
fn shlc_test() {
    let result = run(&[
        movi(1, 0xff),
        lui(1, 0xff),
        movi(2, 1),
        movi(4, 0x50),
        alu(AluOp::Add, 3, 1, 2),
        unary(UnaryOp::Shlc, 0, 4),
        HALT,
    ]);
    assert_eq!(result, 0x00A1);
}

#[test]
fn beq_test() {
    let result = check_branch(Cond::Equal, &[(7, 7, true), (7, 8, false), (0, 0xffff, false)]);
    assert_eq!(result, 0);
}

#[test]
fn bp_test() {
    let result = check_branch(
        Cond::Positive,
        &[(9, 4, true), (4, 4, false), (4, 9, false), (0x8000, 1, true)],
    );
    assert_eq!(result, 0);
}

#[test]
fn bn_test() {
    let result = check_branch(Cond::Negative, &[(4, 9, true), (9, 4, false), (4, 4, false)]);
    assert_eq!(result, 0);
}

#[test]
fn bc_test() {
    let result = check_branch(Cond::Carry, &[(4, 9, true), (9, 4, false), (4, 4, false)]);
    assert_eq!(result, 0);
}

#[test]
fn bo_test() {
    let result = check_branch(
        Cond::Overflow,
        &[(0x8000, 1, true), (0x7fff, 0xffff, true), (9, 4, false), (4, 9, false)],
    );
    assert_eq!(result, 0);
}

#[test]
fn bne_test() {
    let result = check_branch(Cond::NotEqual, &[(7, 8, true), (7, 7, false)]);
    assert_eq!(result, 0);
}

#[test]
fn jmp_test() {
    let result = run(&[
        movi(0, 1),
        jmp(2),
        HALT,
        HALT,
        jmp(1),
        HALT,
        movi(0, 2),
        jmp(1),
        HALT,
        jmp(-10 + 12),
        HALT,
        HALT,
        movi(0, 0),
        jmp(-12),
        HALT,
    ]);
    assert_eq!(result, 0);
}

#[test]
fn bnc_test() {
    let result = check_branch(Cond::NoCarry, &[(9, 4, true), (4, 4, true), (4, 9, false)]);
    assert_eq!(result, 0);
}

#[test]
fn bg_test() {
    let result = check_branch(
        Cond::Greater,
        &[(9, 4, true), (4, 4, false), (4, 9, false), (1, 0xffff, true), (0x8000, 0x7fff, false)],
    );
    assert_eq!(result, 0);
}

#[test]
fn bge_test() {
    let result = check_branch(
        Cond::GreaterEqual,
        &[(9, 4, true), (4, 4, true), (4, 9, false), (1, 0xffff, true), (0x8000, 0x7fff, false)],
    );
    assert_eq!(result, 0);
}

#[test]
fn bl_test() {
    let result = check_branch(
        Cond::Less,
        &[(9, 4, false), (4, 4, false), (4, 9, true), (0xffff, 1, true), (0x7fff, 0x8000, false)],
    );
    assert_eq!(result, 0);
}

#[test]
fn ble_test() {
    let result = check_branch(
        Cond::LessEqual,
        &[(9, 4, false), (4, 4, true), (4, 9, true), (0xffff, 1, true), (0x7fff, 0x8000, false)],
    );
    assert_eq!(result, 0);
}

#[test]
fn ba_test() {
    let result = check_branch(
        Cond::Above,
        &[(9, 4, true), (4, 4, false), (4, 9, false), (0xffff, 1, true), (1, 0xffff, false)],
    );
    assert_eq!(result, 0);
}

#[test]
fn bae_test() {
    let result = check_branch(
        Cond::AboveEqual,
        &[(9, 4, true), (4, 4, true), (4, 9, false), (0xffff, 1, true), (1, 0xffff, false)],
    );
    assert_eq!(result, 0);
}

#[test]
fn bb_test() {
    let result = check_branch(
        Cond::Below,
        &[(9, 4, false), (4, 4, false), (4, 9, true), (0xffff, 1, false), (1, 0xffff, true)],
    );
    assert_eq!(result, 0);
}

#[test]
fn bbe_test() {
    let result = check_branch(
        Cond::BelowEqual,
        &[(9, 4, false), (4, 4, true), (4, 9, true), (0xffff, 1, false), (1, 0xffff, true)],
    );
    assert_eq!(result, 0);
}

/// Follows the Collatz trajectory of 27 and keeps the largest value met.
#[test]
fn collatz_test() {
    let result = run(&[
        // r1: the current value; r0: the largest so far; r2: the constant 1.
        movi(1, 27),
        movi(0, 27),
        movi(2, 1),
        // loop (address 3): done when r1 == 1.
        alu(AluOp::Sub, 3, 1, 2),
        branch(Cond::Equal, 12),
        // r3 := r1 & 1; odd values go to address 9.
        alu(AluOp::And, 3, 1, 2),
        branch(Cond::NotEqual, 2),
        // even: r1 := r1 / 2.
        unary(UnaryOp::Shr, 1, 1),
        jmp(4),
        // odd (address 9): r1 := 3 * r1 + 1.
        alu(AluOp::Add, 4, 1, 1),
        alu(AluOp::Add, 1, 4, 1),
        alu(AluOp::Add, 1, 1, 2),
        jmp(0),
        // both (address 13): r0 := max(r0, r1), unsigned.
        alu(AluOp::Sub, 3, 0, 1),
        branch(Cond::AboveEqual, 1),
        alu(AluOp::Or, 0, 1, 1),
        jmp(-14),
        // done (address 17).
        HALT,
    ]);
    assert_eq!(result, 9232);
}

#[test]
fn load_test() {
    let result = run(&[movi(0, 0xff), lui(0, 0x0f), HALT]);
    assert_eq!(result, 0x0FFF);
}
