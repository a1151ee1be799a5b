//! The instruction set: one 16-bit word per instruction.
//!
//! The top four bits of a word select the instruction class; the rest holds
//! 3-bit register numbers and an immediate. Unused bits must be zero, so each
//! instruction has exactly one encoding and every other word is illegal.
//!
//! | Bits 15..12 | Class  | Bits 11..0                                   |
//! |-------------|--------|----------------------------------------------|
//! | `0`         | halt   | all zero                                     |
//! | `1`         | alu    | `rd:3 rs:3 rt:3 op:3`                        |
//! | `2`         | unary  | `rd:3 rs:3 000 op:3`                         |
//! | `3`         | addi   | `rd:3 rs:3 imm:6` (signed)                   |
//! | `4`         | movi   | `rd:3 0 imm:8`                               |
//! | `5`         | lui    | `rd:3 0 imm:8`                               |
//! | `6`         | lw     | `rd:3 rs:3 imm:6` (signed)                   |
//! | `7`         | sw     | `rd:3 rs:3 imm:6` (signed)                   |
//! | `8`         | swi    | `rs:3 addr:9`                                |
//! | `9`         | jmp    | `offset:12` (signed)                         |
//! | `10`        | jalr   | `rd:3 rs:3 000000`                           |
//! | `11`        | branch | `cond:4 offset:8` (signed)                   |

use vstd::prelude::*;

verus! {

/// The two-operand operations of the ALU, in the order of their 3-bit codes.
#[derive(Clone, Copy, Debug, PartialEq, Eq, Structural)]
pub enum AluOp {
    Add,
    Sub,
    Addc,
    Subc,
    And,
    Or,
    Xor,
    Nand,
}

/// The one-operand operations of the ALU, in the order of their 3-bit codes.
/// Every shift and rotate moves the word by one bit.
#[derive(Clone, Copy, Debug, PartialEq, Eq, Structural)]
pub enum UnaryOp {
    Not,
    Shl,
    Shr,
    Sshr,
    Rotl,
    Rotr,
    Shlc,
    Shrc,
}

/// The branch conditions, in the order of their 4-bit codes.
#[derive(Clone, Copy, Debug, PartialEq, Eq, Structural)]
pub enum Cond {
    /// `beq`: Z set.
    Equal,
    /// `bne`: Z clear.
    NotEqual,
    /// `bp`: N and Z both clear.
    Positive,
    /// `bn`: N set.
    Negative,
    /// `bc`: C set.
    Carry,
    /// `bnc`: C clear.
    NoCarry,
    /// `bo`: V set.
    Overflow,
    /// `bg`: signed greater.
    Greater,
    /// `bge`: signed greater or equal.
    GreaterEqual,
    /// `bl`: signed less.
    Less,
    /// `ble`: signed less or equal.
    LessEqual,
    /// `ba`: unsigned above.
    Above,
    /// `bae`: unsigned above or equal.
    AboveEqual,
    /// `bb`: unsigned below.
    Below,
    /// `bbe`: unsigned below or equal.
    BelowEqual,
}

/// A decoded instruction.
#[allow(inconsistent_fields)]
#[derive(Clone, Copy, Debug, PartialEq, Eq, Structural)]
pub enum Instr {
    /// Stops the machine.
    Halt,
    /// `rd := rs op rt`, and the flags follow the result.
    Alu { op: AluOp, rd: u8, rs: u8, rt: u8 },
    /// `rd := op rs`, and the flags follow the result.
    Unary { op: UnaryOp, rd: u8, rs: u8 },
    /// `rd := rs + imm`, and the flags follow the result.
    Addi { rd: u8, rs: u8, imm: i8 },
    /// `rd := imm`.
    Movi { rd: u8, imm: u8 },
    /// The upper byte of `rd` becomes `imm`; its lower byte stays.
    Lui { rd: u8, imm: u8 },
    /// `rd := mem[rs + imm]`.
    Lw { rd: u8, rs: u8, imm: i8 },
    /// `mem[rd + imm] := rs`.
    Sw { rd: u8, rs: u8, imm: i8 },
    /// `mem[addr] := rs`.
    Swi { rs: u8, addr: u16 },
    /// `pc := pc + 1 + offset`.
    Jmp { offset: i16 },
    /// `rd := pc + 1` and `pc := rs`, with `rs` read first.
    Jalr { rd: u8, rs: u8 },
    /// `pc := pc + 1 + offset` where the condition holds of the flags.
    Branch { cond: Cond, offset: i8 },
}

impl AluOp {
    pub open spec fn code(self) -> int {
        match self {
            AluOp::Add => 0,
            AluOp::Sub => 1,
            AluOp::Addc => 2,
            AluOp::Subc => 3,
            AluOp::And => 4,
            AluOp::Or => 5,
            AluOp::Xor => 6,
            AluOp::Nand => 7,
        }
    }

    pub open spec fn from_code(code: int) -> AluOp {
        if code == 0 {
            AluOp::Add
        } else if code == 1 {
            AluOp::Sub
        } else if code == 2 {
            AluOp::Addc
        } else if code == 3 {
            AluOp::Subc
        } else if code == 4 {
            AluOp::And
        } else if code == 5 {
            AluOp::Or
        } else if code == 6 {
            AluOp::Xor
        } else {
            AluOp::Nand
        }
    }

    fn to_bits(self) -> (code: u16)
        ensures
            code == self.code(),
    {
        match self {
            AluOp::Add => 0,
            AluOp::Sub => 1,
            AluOp::Addc => 2,
            AluOp::Subc => 3,
            AluOp::And => 4,
            AluOp::Or => 5,
            AluOp::Xor => 6,
            AluOp::Nand => 7,
        }
    }

    fn from_bits(code: u16) -> (op: AluOp)
        ensures
            op == Self::from_code(code as int),
    {
        if code == 0 {
            AluOp::Add
        } else if code == 1 {
            AluOp::Sub
        } else if code == 2 {
            AluOp::Addc
        } else if code == 3 {
            AluOp::Subc
        } else if code == 4 {
            AluOp::And
        } else if code == 5 {
            AluOp::Or
        } else if code == 6 {
            AluOp::Xor
        } else {
            AluOp::Nand
        }
    }
}

impl UnaryOp {
    pub open spec fn code(self) -> int {
        match self {
            UnaryOp::Not => 0,
            UnaryOp::Shl => 1,
            UnaryOp::Shr => 2,
            UnaryOp::Sshr => 3,
            UnaryOp::Rotl => 4,
            UnaryOp::Rotr => 5,
            UnaryOp::Shlc => 6,
            UnaryOp::Shrc => 7,
        }
    }

    pub open spec fn from_code(code: int) -> UnaryOp {
        if code == 0 {
            UnaryOp::Not
        } else if code == 1 {
            UnaryOp::Shl
        } else if code == 2 {
            UnaryOp::Shr
        } else if code == 3 {
            UnaryOp::Sshr
        } else if code == 4 {
            UnaryOp::Rotl
        } else if code == 5 {
            UnaryOp::Rotr
        } else if code == 6 {
            UnaryOp::Shlc
        } else {
            UnaryOp::Shrc
        }
    }

    fn to_bits(self) -> (code: u16)
        ensures
            code == self.code(),
    {
        match self {
            UnaryOp::Not => 0,
            UnaryOp::Shl => 1,
            UnaryOp::Shr => 2,
            UnaryOp::Sshr => 3,
            UnaryOp::Rotl => 4,
            UnaryOp::Rotr => 5,
            UnaryOp::Shlc => 6,
            UnaryOp::Shrc => 7,
        }
    }

    fn from_bits(code: u16) -> (op: UnaryOp)
        ensures
            op == Self::from_code(code as int),
    {
        if code == 0 {
            UnaryOp::Not
        } else if code == 1 {
            UnaryOp::Shl
        } else if code == 2 {
            UnaryOp::Shr
        } else if code == 3 {
            UnaryOp::Sshr
        } else if code == 4 {
            UnaryOp::Rotl
        } else if code == 5 {
            UnaryOp::Rotr
        } else if code == 6 {
            UnaryOp::Shlc
        } else {
            UnaryOp::Shrc
        }
    }
}

impl Cond {
    pub open spec fn code(self) -> int {
        match self {
            Cond::Equal => 0,
            Cond::NotEqual => 1,
            Cond::Positive => 2,
            Cond::Negative => 3,
            Cond::Carry => 4,
            Cond::NoCarry => 5,
            Cond::Overflow => 6,
            Cond::Greater => 7,
            Cond::GreaterEqual => 8,
            Cond::Less => 9,
            Cond::LessEqual => 10,
            Cond::Above => 11,
            Cond::AboveEqual => 12,
            Cond::Below => 13,
            Cond::BelowEqual => 14,
        }
    }

    /// The condition with the given code; code 15 names none.
    pub open spec fn from_code(code: int) -> Option<Cond> {
        if code == 0 {
            Some(Cond::Equal)
        } else if code == 1 {
            Some(Cond::NotEqual)
        } else if code == 2 {
            Some(Cond::Positive)
        } else if code == 3 {
            Some(Cond::Negative)
        } else if code == 4 {
            Some(Cond::Carry)
        } else if code == 5 {
            Some(Cond::NoCarry)
        } else if code == 6 {
            Some(Cond::Overflow)
        } else if code == 7 {
            Some(Cond::Greater)
        } else if code == 8 {
            Some(Cond::GreaterEqual)
        } else if code == 9 {
            Some(Cond::Less)
        } else if code == 10 {
            Some(Cond::LessEqual)
        } else if code == 11 {
            Some(Cond::Above)
        } else if code == 12 {
            Some(Cond::AboveEqual)
        } else if code == 13 {
            Some(Cond::Below)
        } else if code == 14 {
            Some(Cond::BelowEqual)
        } else {
            None
        }
    }

    fn to_bits(self) -> (code: u16)
        ensures
            code == self.code(),
    {
        match self {
            Cond::Equal => 0,
            Cond::NotEqual => 1,
            Cond::Positive => 2,
            Cond::Negative => 3,
            Cond::Carry => 4,
            Cond::NoCarry => 5,
            Cond::Overflow => 6,
            Cond::Greater => 7,
            Cond::GreaterEqual => 8,
            Cond::Less => 9,
            Cond::LessEqual => 10,
            Cond::Above => 11,
            Cond::AboveEqual => 12,
            Cond::Below => 13,
            Cond::BelowEqual => 14,
        }
    }

    fn from_bits(code: u16) -> (cond: Option<Cond>)
        ensures
            cond == Self::from_code(code as int),
    {
        if code == 0 {
            Some(Cond::Equal)
        } else if code == 1 {
            Some(Cond::NotEqual)
        } else if code == 2 {
            Some(Cond::Positive)
        } else if code == 3 {
            Some(Cond::Negative)
        } else if code == 4 {
            Some(Cond::Carry)
        } else if code == 5 {
            Some(Cond::NoCarry)
        } else if code == 6 {
            Some(Cond::Overflow)
        } else if code == 7 {
            Some(Cond::Greater)
        } else if code == 8 {
            Some(Cond::GreaterEqual)
        } else if code == 9 {
            Some(Cond::Less)
        } else if code == 10 {
            Some(Cond::LessEqual)
        } else if code == 11 {
            Some(Cond::Above)
        } else if code == 12 {
            Some(Cond::AboveEqual)
        } else if code == 13 {
            Some(Cond::Below)
        } else if code == 14 {
            Some(Cond::BelowEqual)
        } else {
            None
        }
    }
}

/// The value of a `bits`-wide field read as a two's complement number, where
/// `half` is `2^(bits - 1)`.
pub open spec fn sign_extend(raw: int, half: int) -> int {
    if raw >= half {
        raw - 2 * half
    } else {
        raw
    }
}

/// The field that holds `value` as a two's complement number, where `half`
/// is `2^(bits - 1)`.
pub open spec fn field_of(value: int, half: int) -> int {
    if value < 0 {
        value + 2 * half
    } else {
        value
    }
}

impl Instr {
    /// Register numbers are below 8 and immediates fit their fields.
    pub open spec fn wf(self) -> bool {
        match self {
            Instr::Halt => true,
            Instr::Alu { op, rd, rs, rt } => rd < 8 && rs < 8 && rt < 8,
            Instr::Unary { op, rd, rs } => rd < 8 && rs < 8,
            Instr::Addi { rd, rs, imm } => rd < 8 && rs < 8 && -32 <= imm < 32,
            Instr::Movi { rd, imm } => rd < 8,
            Instr::Lui { rd, imm } => rd < 8,
            Instr::Lw { rd, rs, imm } => rd < 8 && rs < 8 && -32 <= imm < 32,
            Instr::Sw { rd, rs, imm } => rd < 8 && rs < 8 && -32 <= imm < 32,
            Instr::Swi { rs, addr } => rs < 8 && addr < 512,
            Instr::Jmp { offset } => -2048 <= offset < 2048,
            Instr::Jalr { rd, rs } => rd < 8 && rs < 8,
            Instr::Branch { cond, offset } => true,
        }
    }

    /// The word that encodes a well-formed instruction.
    pub open spec fn encoding(self) -> int {
        match self {
            Instr::Halt => 0,
            Instr::Alu { op, rd, rs, rt } => 0x1000 + rd * 512 + rs * 64 + rt * 8 + op.code(),
            Instr::Unary { op, rd, rs } => 0x2000 + rd * 512 + rs * 64 + op.code(),
            Instr::Addi { rd, rs, imm } => 0x3000 + rd * 512 + rs * 64 + field_of(imm as int, 32),
            Instr::Movi { rd, imm } => 0x4000 + rd * 512 + imm,
            Instr::Lui { rd, imm } => 0x5000 + rd * 512 + imm,
            Instr::Lw { rd, rs, imm } => 0x6000 + rd * 512 + rs * 64 + field_of(imm as int, 32),
            Instr::Sw { rd, rs, imm } => 0x7000 + rd * 512 + rs * 64 + field_of(imm as int, 32),
            Instr::Swi { rs, addr } => 0x8000 + rs * 512 + addr,
            Instr::Jmp { offset } => 0x9000 + field_of(offset as int, 2048),
            Instr::Jalr { rd, rs } => 0xA000 + rd * 512 + rs * 64,
            Instr::Branch { cond, offset } => 0xB000 + cond.code() * 256 + field_of(
                offset as int,
                128,
            ),
        }
    }
}

/// The instruction that a word encodes, or `None` for an illegal word.
pub open spec fn decoding(word: u16) -> Option<Instr> {
    let class = word / 0x1000;
    let rd = ((word / 512) % 8) as u8;
    let rs = ((word / 64) % 8) as u8;
    let rt = ((word / 8) % 8) as u8;
    let imm6 = sign_extend((word % 64) as int, 32) as i8;
    let imm8 = (word % 256) as u8;
    if class == 0 {
        if word == 0 {
            Some(Instr::Halt)
        } else {
            None
        }
    } else if class == 1 {
        Some(Instr::Alu { op: AluOp::from_code((word % 8) as int), rd, rs, rt })
    } else if class == 2 {
        if rt == 0 {
            Some(Instr::Unary { op: UnaryOp::from_code((word % 8) as int), rd, rs })
        } else {
            None
        }
    } else if class == 3 {
        Some(Instr::Addi { rd, rs, imm: imm6 })
    } else if class == 4 {
        if (word / 256) % 2 == 0 {
            Some(Instr::Movi { rd, imm: imm8 })
        } else {
            None
        }
    } else if class == 5 {
        if (word / 256) % 2 == 0 {
            Some(Instr::Lui { rd, imm: imm8 })
        } else {
            None
        }
    } else if class == 6 {
        Some(Instr::Lw { rd, rs, imm: imm6 })
    } else if class == 7 {
        Some(Instr::Sw { rd, rs, imm: imm6 })
    } else if class == 8 {
        Some(Instr::Swi { rs: rd, addr: (word % 512) as u16 })
    } else if class == 9 {
        Some(Instr::Jmp { offset: sign_extend((word % 0x1000) as int, 2048) as i16 })
    } else if class == 10 {
        if word % 64 == 0 {
            Some(Instr::Jalr { rd, rs })
        } else {
            None
        }
    } else if class == 11 {
        match Cond::from_code(((word / 256) % 16) as int) {
            Some(cond) => Some(
                Instr::Branch { cond, offset: sign_extend((word % 256) as int, 128) as i8 },
            ),
            None => None,
        }
    } else {
        None
    }
}

fn signed6(raw: u16) -> (imm: i8)
    requires
        raw < 64,
    ensures
        imm == sign_extend(raw as int, 32),
{
    if raw >= 32 {
        (raw as i8) - 64
    } else {
        raw as i8
    }
}

fn field6(imm: i8) -> (raw: u16)
    requires
        -32 <= imm < 32,
    ensures
        raw == field_of(imm as int, 32),
{
    if imm < 0 {
        (imm + 64) as u16
    } else {
        imm as u16
    }
}

/// Decodes one instruction word.
pub fn decode(word: u16) -> (instr: Option<Instr>)
    ensures
        instr == decoding(word),
{
    let class: u16 = word / 0x1000;
    let rd: u8 = ((word / 512) % 8) as u8;
    let rs: u8 = ((word / 64) % 8) as u8;
    let rt: u8 = ((word / 8) % 8) as u8;
    let imm8: u8 = (word % 256) as u8;
    if class == 0 {
        if word == 0 {
            Some(Instr::Halt)
        } else {
            None
        }
    } else if class == 1 {
        Some(Instr::Alu { op: AluOp::from_bits(word % 8), rd, rs, rt })
    } else if class == 2 {
        if rt == 0 {
            Some(Instr::Unary { op: UnaryOp::from_bits(word % 8), rd, rs })
        } else {
            None
        }
    } else if class == 3 {
        Some(Instr::Addi { rd, rs, imm: signed6(word % 64) })
    } else if class == 4 {
        if (word / 256) % 2 == 0 {
            Some(Instr::Movi { rd, imm: imm8 })
        } else {
            None
        }
    } else if class == 5 {
        if (word / 256) % 2 == 0 {
            Some(Instr::Lui { rd, imm: imm8 })
        } else {
            None
        }
    } else if class == 6 {
        Some(Instr::Lw { rd, rs, imm: signed6(word % 64) })
    } else if class == 7 {
        Some(Instr::Sw { rd, rs, imm: signed6(word % 64) })
    } else if class == 8 {
        Some(Instr::Swi { rs: rd, addr: word % 512 })
    } else if class == 9 {
        let raw: u16 = word % 0x1000;
        let offset: i16 = if raw >= 2048 {
            (raw as i16) - 4096
        } else {
            raw as i16
        };
        Some(Instr::Jmp { offset })
    } else if class == 10 {
        if word % 64 == 0 {
            Some(Instr::Jalr { rd, rs })
        } else {
            None
        }
    } else if class == 11 {
        let raw: u16 = word % 256;
        let offset: i8 = if raw >= 128 {
            ((raw as i16) - 256) as i8
        } else {
            raw as i8
        };
        match Cond::from_bits((word / 256) % 16) {
            Some(cond) => Some(Instr::Branch { cond, offset }),
            None => None,
        }
    } else {
        None
    }
}

/// Encodes one instruction; `None` where a register number or an immediate
/// does not fit its field.
pub fn encode(instr: Instr) -> (word: Option<u16>)
    ensures
        instr.wf() ==> word == Some(instr.encoding() as u16),
        !instr.wf() ==> word.is_none(),
{
    match instr {
        Instr::Halt => Some(0),
        Instr::Alu { op, rd, rs, rt } => {
            if rd < 8 && rs < 8 && rt < 8 {
                Some(0x1000 + (rd as u16) * 512 + (rs as u16) * 64 + (rt as u16) * 8 + op.to_bits())
            } else {
                None
            }
        },
        Instr::Unary { op, rd, rs } => {
            if rd < 8 && rs < 8 {
                Some(0x2000 + (rd as u16) * 512 + (rs as u16) * 64 + op.to_bits())
            } else {
                None
            }
        },
        Instr::Addi { rd, rs, imm } => {
            if rd < 8 && rs < 8 && -32 <= imm && imm < 32 {
                Some(0x3000 + (rd as u16) * 512 + (rs as u16) * 64 + field6(imm))
            } else {
                None
            }
        },
        Instr::Movi { rd, imm } => {
            if rd < 8 {
                Some(0x4000 + (rd as u16) * 512 + (imm as u16))
            } else {
                None
            }
        },
        Instr::Lui { rd, imm } => {
            if rd < 8 {
                Some(0x5000 + (rd as u16) * 512 + (imm as u16))
            } else {
                None
            }
        },
        Instr::Lw { rd, rs, imm } => {
            if rd < 8 && rs < 8 && -32 <= imm && imm < 32 {
                Some(0x6000 + (rd as u16) * 512 + (rs as u16) * 64 + field6(imm))
            } else {
                None
            }
        },
        Instr::Sw { rd, rs, imm } => {
            if rd < 8 && rs < 8 && -32 <= imm && imm < 32 {
                Some(0x7000 + (rd as u16) * 512 + (rs as u16) * 64 + field6(imm))
            } else {
                None
            }
        },
        Instr::Swi { rs, addr } => {
            if rs < 8 && addr < 512 {
                Some(0x8000 + (rs as u16) * 512 + addr)
            } else {
                None
            }
        },
        Instr::Jmp { offset } => {
            if -2048 <= offset && offset < 2048 {
                let raw: u16 = if offset < 0 {
                    (offset + 4096) as u16
                } else {
                    offset as u16
                };
                Some(0x9000 + raw)
            } else {
                None
            }
        },
        Instr::Jalr { rd, rs } => {
            if rd < 8 && rs < 8 {
                Some(0xA000 + (rd as u16) * 512 + (rs as u16) * 64)
            } else {
                None
            }
        },
        Instr::Branch { cond, offset } => {
            let raw: u16 = if offset < 0 {
                ((offset as i16) + 256) as u16
            } else {
                offset as u16
            };
            Some(0xB000 + cond.to_bits() * 256 + raw)
        },
    }
}

/// A word laid out as `class:4 rd:3 rs:3 low:6` gives its fields back.
proof fn lemma_fields_three(class: u16, rd: u16, rs: u16, low: u16)
    requires
        class < 16,
        rd < 8,
        rs < 8,
        low < 64,
    ensures
        ({
            let w = class * 0x1000 + rd * 512 + rs * 64 + low;
            &&& 0 <= w <= 0xffff
            &&& w / 0x1000 == class
            &&& (w / 512) % 8 == rd
            &&& (w / 64) % 8 == rs
            &&& (w / 8) % 8 == low / 8
            &&& w % 8 == low % 8
            &&& w % 64 == low
        }),
{
    assert({
        let w = class * 0x1000 + rd * 512 + rs * 64 + low;
        &&& 0 <= w <= 0xffff
        &&& w / 0x1000 == class
        &&& (w / 512) % 8 == rd
        &&& (w / 64) % 8 == rs
        &&& (w / 8) % 8 == low / 8
        &&& w % 8 == low % 8
        &&& w % 64 == low
    }) by (bit_vector)
        requires
            class < 16,
            rd < 8,
            rs < 8,
            low < 64,
    ;
}

/// A word laid out as `class:4 rd:3 low:9` gives its fields back.
proof fn lemma_fields_two(class: u16, rd: u16, low: u16)
    requires
        class < 16,
        rd < 8,
        low < 512,
    ensures
        ({
            let w = class * 0x1000 + rd * 512 + low;
            &&& 0 <= w <= 0xffff
            &&& w / 0x1000 == class
            &&& (w / 512) % 8 == rd
            &&& (w / 256) % 2 == low / 256
            &&& w % 256 == low % 256
            &&& w % 512 == low
        }),
{
    assert({
        let w = class * 0x1000 + rd * 512 + low;
        &&& 0 <= w <= 0xffff
        &&& w / 0x1000 == class
        &&& (w / 512) % 8 == rd
        &&& (w / 256) % 2 == low / 256
        &&& w % 256 == low % 256
        &&& w % 512 == low
    }) by (bit_vector)
        requires
            class < 16,
            rd < 8,
            low < 512,
    ;
}

/// A word laid out as `class:4 high:4 low:8` gives its fields back.
proof fn lemma_fields_one(class: u16, high: u16, low: u16)
    requires
        class < 16,
        high < 16,
        low < 256,
    ensures
        ({
            let w = class * 0x1000 + high * 256 + low;
            &&& 0 <= w <= 0xffff
            &&& w / 0x1000 == class
            &&& (w / 256) % 16 == high
            &&& w % 256 == low
            &&& w % 0x1000 == high * 256 + low
        }),
{
    assert({
        let w = class * 0x1000 + high * 256 + low;
        &&& 0 <= w <= 0xffff
        &&& w / 0x1000 == class
        &&& (w / 256) % 16 == high
        &&& w % 256 == low
        &&& w % 0x1000 == high * 256 + low
    }) by (bit_vector)
        requires
            class < 16,
            high < 16,
            low < 256,
    ;
}

/// A word is the sum of its fields, in each of the layouts.
proof fn lemma_word_is_its_fields(word: u16)
    ensures
        word == (word / 0x1000) * 0x1000 + ((word / 512) % 8) * 512 + ((word / 64) % 8) * 64 + ((
        word / 8) % 8) * 8 + word % 8,
        word == (word / 0x1000) * 0x1000 + ((word / 512) % 8) * 512 + ((word / 64) % 8) * 64 + word
            % 64,
        word == (word / 0x1000) * 0x1000 + ((word / 512) % 8) * 512 + word % 512,
        word == (word / 0x1000) * 0x1000 + ((word / 512) % 8) * 512 + ((word / 256) % 2) * 256
            + word % 256,
        word == (word / 0x1000) * 0x1000 + ((word / 256) % 16) * 256 + word % 256,
        word == (word / 0x1000) * 0x1000 + word % 0x1000,
{
    assert(word == (word / 0x1000) * 0x1000 + ((word / 512) % 8) * 512 + ((word / 64) % 8) * 64 + ((
    word / 8) % 8) * 8 + word % 8) by (bit_vector);
    assert(word == (word / 0x1000) * 0x1000 + ((word / 512) % 8) * 512 + ((word / 64) % 8) * 64
        + word % 64) by (bit_vector);
    assert(word == (word / 0x1000) * 0x1000 + ((word / 512) % 8) * 512 + word % 512)
        by (bit_vector);
    assert(word == (word / 0x1000) * 0x1000 + ((word / 512) % 8) * 512 + ((word / 256) % 2) * 256
        + word % 256) by (bit_vector);
    assert(word == (word / 0x1000) * 0x1000 + ((word / 256) % 16) * 256 + word % 256)
        by (bit_vector);
}

/// Decoding undoes encoding: a well-formed instruction is what its own word
/// decodes to.
pub proof fn lemma_decode_encode(instr: Instr)
    requires
        instr.wf(),
    ensures
        0 <= instr.encoding() <= 0xffff,
        decoding(instr.encoding() as u16) == Some(instr),
{
    match instr {
        Instr::Halt => {},
        Instr::Alu { op, rd, rs, rt } => {
            lemma_fields_three(1, rd as u16, rs as u16, (rt * 8 + op.code()) as u16);
        },
        Instr::Unary { op, rd, rs } => {
            lemma_fields_three(2, rd as u16, rs as u16, op.code() as u16);
        },
        Instr::Addi { rd, rs, imm } => {
            lemma_fields_three(3, rd as u16, rs as u16, field_of(imm as int, 32) as u16);
        },
        Instr::Movi { rd, imm } => {
            lemma_fields_two(4, rd as u16, imm as u16);
        },
        Instr::Lui { rd, imm } => {
            lemma_fields_two(5, rd as u16, imm as u16);
        },
        Instr::Lw { rd, rs, imm } => {
            lemma_fields_three(6, rd as u16, rs as u16, field_of(imm as int, 32) as u16);
        },
        Instr::Sw { rd, rs, imm } => {
            lemma_fields_three(7, rd as u16, rs as u16, field_of(imm as int, 32) as u16);
        },
        Instr::Swi { rs, addr } => {
            lemma_fields_two(8, rs as u16, addr);
        },
        Instr::Jmp { offset } => {
            let raw = field_of(offset as int, 2048);
            lemma_fields_one(9, (raw / 256) as u16, (raw % 256) as u16);
        },
        Instr::Jalr { rd, rs } => {
            lemma_fields_three(10, rd as u16, rs as u16, 0);
        },
        Instr::Branch { cond, offset } => {
            lemma_fields_one(11, cond.code() as u16, field_of(offset as int, 128) as u16);
        },
    }
}

/// Encoding undoes decoding: a legal word decodes to a well-formed
/// instruction whose encoding is that word. With the law above, the legal
/// words and the well-formed instructions correspond one to one.
pub proof fn lemma_encode_decode(word: u16)
    ensures
        decoding(word) matches Some(instr) ==> instr.wf() && instr.encoding() == word,
{
    lemma_word_is_its_fields(word);
    let class = word / 0x1000;
    if class == 1 {
        assert(AluOp::from_code((word % 8) as int).code() == word % 8);
    } else if class == 2 {
        assert(UnaryOp::from_code((word % 8) as int).code() == word % 8);
    } else if class == 11 {
        let c = ((word / 256) % 16) as int;
        assert(Cond::from_code(c) matches Some(cond) ==> cond.code() == c);
    }
}

} // verus!
