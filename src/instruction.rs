//! Decoding of LR35902 opcodes into instructions.
//!
//! An opcode byte is read as three fields, `x` (bits 7..6), `y` (bits 5..3)
//! and `z` (bits 2..0); `y` splits further into `p` (bits 5..4) and `q`
//! (bit 3). The register operands follow the hardware's own numbering.
use vstd::prelude::*;

verus! {

/// An 8-bit operand: a register, or the byte that HL points at.
#[derive(Copy, Clone, Debug, PartialEq, Eq, Structural)]
pub enum Reg8 {
    B,
    C,
    D,
    E,
    H,
    L,
    HLInd,
    A,
}

/// A register pair as loaded, incremented and added.
#[derive(Copy, Clone, Debug, PartialEq, Eq, Structural)]
pub enum Reg16 {
    BC,
    DE,
    HL,
    SP,
}

/// A register pair as pushed and popped.
#[derive(Copy, Clone, Debug, PartialEq, Eq, Structural)]
pub enum StackPair {
    BC,
    DE,
    HL,
    AF,
}

/// The address operand of `LD (rr),A` and `LD A,(rr)`; the HL forms step HL afterwards.
#[derive(Copy, Clone, Debug, PartialEq, Eq, Structural)]
pub enum Indirect {
    BC,
    DE,
    HLInc,
    HLDec,
}

/// A branch condition on the Z or C flag.
#[derive(Copy, Clone, Debug, PartialEq, Eq, Structural)]
pub enum Cond {
    NZ,
    Z,
    NC,
    C,
}

/// The eight accumulator operations of the `0x80..=0xBF` block and of the immediate forms.
#[derive(Copy, Clone, Debug, PartialEq, Eq, Structural)]
pub enum AluOp {
    Add,
    Adc,
    Sub,
    Sbc,
    And,
    Xor,
    Or,
    Cp,
}

/// The rotates and shifts of the first quarter of the prefixed page.
#[derive(Copy, Clone, Debug, PartialEq, Eq, Structural)]
pub enum ShiftOp {
    Rlc,
    Rrc,
    Rl,
    Rr,
    Sla,
    Sra,
    Swap,
    Srl,
}

/// An instruction of the prefixed page (the byte after `0xCB`).
#[derive(Copy, Clone, Debug, PartialEq, Eq, Structural)]
pub enum CbInstr {
    Shift(ShiftOp, Reg8),
    TestBit(u8, Reg8),
    ResBit(u8, Reg8),
    SetBit(u8, Reg8),
}

/// An instruction of the unprefixed page.
#[derive(Copy, Clone, Debug, PartialEq, Eq, Structural)]
pub enum Instr {
    Nop,
    Stop,
    Halt,
    Di,
    Ei,
    /// `LD r,r'`
    Ld(Reg8, Reg8),
    /// `LD r,n8`
    LdImm(Reg8),
    /// `LD rr,n16`
    LdImm16(Reg16),
    /// `LD (rr),A`
    StoreA(Indirect),
    /// `LD A,(rr)`
    LoadA(Indirect),
    /// `LD (a16),SP`
    StoreSp,
    Inc16(Reg16),
    Dec16(Reg16),
    Inc(Reg8),
    Dec(Reg8),
    AddHl(Reg16),
    Rlca,
    Rrca,
    Rla,
    Rra,
    Daa,
    Cpl,
    Scf,
    Ccf,
    Jr,
    JrIf(Cond),
    Jp,
    JpIf(Cond),
    JpHl,
    Call,
    CallIf(Cond),
    Ret,
    RetIf(Cond),
    Reti,
    /// `RST` with its target address.
    Rst(u8),
    Push(StackPair),
    Pop(StackPair),
    /// `OP A,r`
    Alu(AluOp, Reg8),
    /// `OP A,n8`
    AluImm(AluOp),
    /// `LDH (a8),A`
    StoreHigh,
    /// `LDH A,(a8)`
    LoadHigh,
    /// `LD (C),A`
    StoreHighC,
    /// `LD A,(C)`
    LoadHighC,
    /// `LD (a16),A`
    StoreAbs,
    /// `LD A,(a16)`
    LoadAbs,
    /// `ADD SP,e8`
    AddSp,
    /// `LD HL,SP+e8`
    LdHlSp,
    /// `LD SP,HL`
    LdSpHl,
    /// `0xCB`: the next byte selects an instruction of the prefixed page.
    Prefix,
    /// One of the eleven opcodes that the CPU does not define.
    Illegal,
}

pub open spec fn reg8_spec(i: u8) -> Reg8 {
    if i == 0 {
        Reg8::B
    } else if i == 1 {
        Reg8::C
    } else if i == 2 {
        Reg8::D
    } else if i == 3 {
        Reg8::E
    } else if i == 4 {
        Reg8::H
    } else if i == 5 {
        Reg8::L
    } else if i == 6 {
        Reg8::HLInd
    } else {
        Reg8::A
    }
}

pub open spec fn reg16_spec(i: u8) -> Reg16 {
    if i == 0 {
        Reg16::BC
    } else if i == 1 {
        Reg16::DE
    } else if i == 2 {
        Reg16::HL
    } else {
        Reg16::SP
    }
}

pub open spec fn stack_pair_spec(i: u8) -> StackPair {
    if i == 0 {
        StackPair::BC
    } else if i == 1 {
        StackPair::DE
    } else if i == 2 {
        StackPair::HL
    } else {
        StackPair::AF
    }
}

pub open spec fn indirect_spec(i: u8) -> Indirect {
    if i == 0 {
        Indirect::BC
    } else if i == 1 {
        Indirect::DE
    } else if i == 2 {
        Indirect::HLInc
    } else {
        Indirect::HLDec
    }
}

pub open spec fn cond_spec(i: u8) -> Cond {
    if i == 0 {
        Cond::NZ
    } else if i == 1 {
        Cond::Z
    } else if i == 2 {
        Cond::NC
    } else {
        Cond::C
    }
}

pub open spec fn alu_op_spec(i: u8) -> AluOp {
    if i == 0 {
        AluOp::Add
    } else if i == 1 {
        AluOp::Adc
    } else if i == 2 {
        AluOp::Sub
    } else if i == 3 {
        AluOp::Sbc
    } else if i == 4 {
        AluOp::And
    } else if i == 5 {
        AluOp::Xor
    } else if i == 6 {
        AluOp::Or
    } else {
        AluOp::Cp
    }
}

pub open spec fn shift_op_spec(i: u8) -> ShiftOp {
    if i == 0 {
        ShiftOp::Rlc
    } else if i == 1 {
        ShiftOp::Rrc
    } else if i == 2 {
        ShiftOp::Rl
    } else if i == 3 {
        ShiftOp::Rr
    } else if i == 4 {
        ShiftOp::Sla
    } else if i == 5 {
        ShiftOp::Sra
    } else if i == 6 {
        ShiftOp::Swap
    } else {
        ShiftOp::Srl
    }
}

/// The opcodes that the CPU leaves undefined.
pub open spec fn is_illegal(op: u8) -> bool {
    op == 0xD3 || op == 0xDB || op == 0xDD || op == 0xE3 || op == 0xE4 || op == 0xEB
        || op == 0xEC || op == 0xED || op == 0xF4 || op == 0xFC || op == 0xFD
}

/// The instruction that an opcode of the unprefixed page stands for.
pub open spec fn decode_spec(op: u8) -> Instr {
    let x = op / 64;
    let y = op / 8 % 8;
    let z = op % 8;
    let p = y / 2;
    let q = y % 2;
    if x == 0 {
        if z == 0 {
            if y == 0 {
                Instr::Nop
            } else if y == 1 {
                Instr::StoreSp
            } else if y == 2 {
                Instr::Stop
            } else if y == 3 {
                Instr::Jr
            } else {
                Instr::JrIf(cond_spec((y - 4) as u8))
            }
        } else if z == 1 {
            if q == 0 {
                Instr::LdImm16(reg16_spec(p))
            } else {
                Instr::AddHl(reg16_spec(p))
            }
        } else if z == 2 {
            if q == 0 {
                Instr::StoreA(indirect_spec(p))
            } else {
                Instr::LoadA(indirect_spec(p))
            }
        } else if z == 3 {
            if q == 0 {
                Instr::Inc16(reg16_spec(p))
            } else {
                Instr::Dec16(reg16_spec(p))
            }
        } else if z == 4 {
            Instr::Inc(reg8_spec(y))
        } else if z == 5 {
            Instr::Dec(reg8_spec(y))
        } else if z == 6 {
            Instr::LdImm(reg8_spec(y))
        } else if y == 0 {
            Instr::Rlca
        } else if y == 1 {
            Instr::Rrca
        } else if y == 2 {
            Instr::Rla
        } else if y == 3 {
            Instr::Rra
        } else if y == 4 {
            Instr::Daa
        } else if y == 5 {
            Instr::Cpl
        } else if y == 6 {
            Instr::Scf
        } else {
            Instr::Ccf
        }
    } else if x == 1 {
        if op == 0x76 {
            Instr::Halt
        } else {
            Instr::Ld(reg8_spec(y), reg8_spec(z))
        }
    } else if x == 2 {
        Instr::Alu(alu_op_spec(y), reg8_spec(z))
    } else if is_illegal(op) {
        Instr::Illegal
    } else if z == 0 {
        if y < 4 {
            Instr::RetIf(cond_spec(y))
        } else if y == 4 {
            Instr::StoreHigh
        } else if y == 5 {
            Instr::AddSp
        } else if y == 6 {
            Instr::LoadHigh
        } else {
            Instr::LdHlSp
        }
    } else if z == 1 {
        if q == 0 {
            Instr::Pop(stack_pair_spec(p))
        } else if p == 0 {
            Instr::Ret
        } else if p == 1 {
            Instr::Reti
        } else if p == 2 {
            Instr::JpHl
        } else {
            Instr::LdSpHl
        }
    } else if z == 2 {
        if y < 4 {
            Instr::JpIf(cond_spec(y))
        } else if y == 4 {
            Instr::StoreHighC
        } else if y == 5 {
            Instr::StoreAbs
        } else if y == 6 {
            Instr::LoadHighC
        } else {
            Instr::LoadAbs
        }
    } else if z == 3 {
        if y == 0 {
            Instr::Jp
        } else if y == 1 {
            Instr::Prefix
        } else if y == 6 {
            Instr::Di
        } else {
            Instr::Ei
        }
    } else if z == 4 {
        Instr::CallIf(cond_spec(y))
    } else if z == 5 {
        if q == 0 {
            Instr::Push(stack_pair_spec(p))
        } else {
            Instr::Call
        }
    } else if z == 6 {
        Instr::AluImm(alu_op_spec(y))
    } else {
        Instr::Rst((y * 8) as u8)
    }
}

/// The instruction that a byte following `0xCB` stands for.
pub open spec fn decode_cb_spec(op: u8) -> CbInstr {
    let x = op / 64;
    let y = op / 8 % 8;
    let r = reg8_spec(op % 8);
    if x == 0 {
        CbInstr::Shift(shift_op_spec(y), r)
    } else if x == 1 {
        CbInstr::TestBit(y, r)
    } else if x == 2 {
        CbInstr::ResBit(y, r)
    } else {
        CbInstr::SetBit(y, r)
    }
}

fn reg8_at(i: u8) -> (r: Reg8)
    ensures
        r == reg8_spec(i),
{
    match i {
        0 => Reg8::B,
        1 => Reg8::C,
        2 => Reg8::D,
        3 => Reg8::E,
        4 => Reg8::H,
        5 => Reg8::L,
        6 => Reg8::HLInd,
        _ => Reg8::A,
    }
}

fn reg16_at(i: u8) -> (r: Reg16)
    ensures
        r == reg16_spec(i),
{
    match i {
        0 => Reg16::BC,
        1 => Reg16::DE,
        2 => Reg16::HL,
        _ => Reg16::SP,
    }
}

fn stack_pair_at(i: u8) -> (r: StackPair)
    ensures
        r == stack_pair_spec(i),
{
    match i {
        0 => StackPair::BC,
        1 => StackPair::DE,
        2 => StackPair::HL,
        _ => StackPair::AF,
    }
}

fn indirect_at(i: u8) -> (r: Indirect)
    ensures
        r == indirect_spec(i),
{
    match i {
        0 => Indirect::BC,
        1 => Indirect::DE,
        2 => Indirect::HLInc,
        _ => Indirect::HLDec,
    }
}

fn cond_at(i: u8) -> (r: Cond)
    ensures
        r == cond_spec(i),
{
    match i {
        0 => Cond::NZ,
        1 => Cond::Z,
        2 => Cond::NC,
        _ => Cond::C,
    }
}

fn alu_op_at(i: u8) -> (r: AluOp)
    ensures
        r == alu_op_spec(i),
{
    match i {
        0 => AluOp::Add,
        1 => AluOp::Adc,
        2 => AluOp::Sub,
        3 => AluOp::Sbc,
        4 => AluOp::And,
        5 => AluOp::Xor,
        6 => AluOp::Or,
        _ => AluOp::Cp,
    }
}

fn shift_op_at(i: u8) -> (r: ShiftOp)
    ensures
        r == shift_op_spec(i),
{
    match i {
        0 => ShiftOp::Rlc,
        1 => ShiftOp::Rrc,
        2 => ShiftOp::Rl,
        3 => ShiftOp::Rr,
        4 => ShiftOp::Sla,
        5 => ShiftOp::Sra,
        6 => ShiftOp::Swap,
        _ => ShiftOp::Srl,
    }
}

/// Decodes an opcode of the unprefixed page from its bit fields.
pub fn decode(op: u8) -> (r: Instr)
    ensures
        r == decode_spec(op),
{
    let x = op >> 6;
    let y = (op >> 3) & 7;
    let z = op & 7;
    proof {
        assert(x == op / 64 && y == op / 8 % 8 && z == op % 8) by (bit_vector)
            requires
                x == op >> 6,
                y == (op >> 3) & 7,
                z == op & 7,
        ;
    }
    let p = y / 2;
    let q = y % 2;
    match x {
        0 => match z {
            0 => match y {
                0 => Instr::Nop,
                1 => Instr::StoreSp,
                2 => Instr::Stop,
                3 => Instr::Jr,
                _ => Instr::JrIf(cond_at(y - 4)),
            },
            1 => if q == 0 {
                Instr::LdImm16(reg16_at(p))
            } else {
                Instr::AddHl(reg16_at(p))
            },
            2 => if q == 0 {
                Instr::StoreA(indirect_at(p))
            } else {
                Instr::LoadA(indirect_at(p))
            },
            3 => if q == 0 {
                Instr::Inc16(reg16_at(p))
            } else {
                Instr::Dec16(reg16_at(p))
            },
            4 => Instr::Inc(reg8_at(y)),
            5 => Instr::Dec(reg8_at(y)),
            6 => Instr::LdImm(reg8_at(y)),
            _ => match y {
                0 => Instr::Rlca,
                1 => Instr::Rrca,
                2 => Instr::Rla,
                3 => Instr::Rra,
                4 => Instr::Daa,
                5 => Instr::Cpl,
                6 => Instr::Scf,
                _ => Instr::Ccf,
            },
        },
        1 => if op == 0x76 {
            Instr::Halt
        } else {
            Instr::Ld(reg8_at(y), reg8_at(z))
        },
        2 => Instr::Alu(alu_op_at(y), reg8_at(z)),
        _ => decode_high(op, y, z),
    }
}

/// The quarter `0xC0..=0xFF` of the unprefixed page.
fn decode_high(op: u8, y: u8, z: u8) -> (r: Instr)
    requires
        op / 64 == 3,
        y == op / 8 % 8,
        z == op % 8,
    ensures
        r == decode_spec(op),
{
    let p = y / 2;
    let q = y % 2;
    if op == 0xD3 || op == 0xDB || op == 0xDD || op == 0xE3 || op == 0xE4 || op == 0xEB
        || op == 0xEC || op == 0xED || op == 0xF4 || op == 0xFC || op == 0xFD {
        return Instr::Illegal;
    }
    match z {
        0 => match y {
            0 | 1 | 2 | 3 => Instr::RetIf(cond_at(y)),
            4 => Instr::StoreHigh,
            5 => Instr::AddSp,
            6 => Instr::LoadHigh,
            _ => Instr::LdHlSp,
        },
        1 => if q == 0 {
            Instr::Pop(stack_pair_at(p))
        } else {
            match p {
                0 => Instr::Ret,
                1 => Instr::Reti,
                2 => Instr::JpHl,
                _ => Instr::LdSpHl,
            }
        },
        2 => match y {
            0 | 1 | 2 | 3 => Instr::JpIf(cond_at(y)),
            4 => Instr::StoreHighC,
            5 => Instr::StoreAbs,
            6 => Instr::LoadHighC,
            _ => Instr::LoadAbs,
        },
        3 => match y {
            0 => Instr::Jp,
            1 => Instr::Prefix,
            6 => Instr::Di,
            _ => Instr::Ei,
        },
        4 => Instr::CallIf(cond_at(y)),
        5 => if q == 0 {
            Instr::Push(stack_pair_at(p))
        } else {
            Instr::Call
        },
        6 => Instr::AluImm(alu_op_at(y)),
        _ => Instr::Rst(y * 8),
    }
}

/// Decodes a byte of the prefixed page from its bit fields.
pub fn decode_cb(op: u8) -> (r: CbInstr)
    ensures
        r == decode_cb_spec(op),
{
    let x = op / 64;
    let y = op / 8 % 8;
    let r = reg8_at(op % 8);
    match x {
        0 => CbInstr::Shift(shift_op_at(y), r),
        1 => CbInstr::TestBit(y, r),
        2 => CbInstr::ResBit(y, r),
        _ => CbInstr::SetBit(y, r),
    }
}

} // verus!
