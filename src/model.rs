//! The abstract machine: the state that a CPU is seen as, and what one
//! instruction, one fetch-and-execute and one step do to it.
use vstd::prelude::*;

use crate::gb::{CpuError, Flag, Register};
use crate::instruction::{
    decode_cb_spec, decode_spec, AluOp, CbInstr, Cond, Indirect, Instr, Reg16, Reg8, ShiftOp,
    StackPair,
};
use crate::operations::{
    adc_result, add16_result, add_result, add_sp_result, and_result, bit_result, cp_result,
    daa_result, dec_result, inc_result, or_result, rl_result, rlc_result, rr_result, rrc_result,
    sbc_result, sla_result, sra_result, srl_result, sub_result, swap_result, xor_result,
};
use crate::operations;

verus! {

/// Address of the interrupt flag register IF.
pub const IF_ADDR: u16 = 0xFF0F;

/// Address of the interrupt enable register IE.
pub const IE_ADDR: u16 = 0xFFFF;

/// The architectural state: registers, the 64 KiB address space, and the
/// interrupt and power-mode latches.
pub ghost struct State {
    pub regs: Register,
    pub mem: Seq<u8>,
    /// Interrupt master enable.
    pub ime: bool,
    /// Set by `EI`: IME becomes 1 after the instruction that follows.
    pub ime_pending: bool,
    pub halted: bool,
    pub stopped: bool,
    /// The next opcode fetch does not advance PC.
    pub halt_bug: bool,
}

/// The 16-bit value of a register pair.
pub open spec fn pair(hi: u8, lo: u8) -> u16 {
    (hi * 256 + lo) as u16
}

pub open spec fn high(v: u16) -> u8 {
    (v / 256) as u8
}

pub open spec fn low(v: u16) -> u8 {
    (v % 256) as u8
}

/// The bit of F that holds a flag.
pub open spec fn flag_mask(flag: Flag) -> u8 {
    match flag {
        Flag::Z => 0x80,
        Flag::N => 0x40,
        Flag::H => 0x20,
        Flag::C => 0x10,
    }
}

/// The F register holding the four given flags, low nibble zero.
pub open spec fn flags_byte(z: bool, n: bool, h: bool, c: bool) -> u8 {
    (if z { 0x80u8 } else { 0u8 }) | (if n { 0x40u8 } else { 0u8 }) | (if h { 0x20u8 } else {
        0u8
    }) | (if c { 0x10u8 } else { 0u8 })
}

/// Each flag reads back from `flags_byte` as it was given.
pub proof fn lemma_flags_byte_reads(z: bool, n: bool, h: bool, c: bool)
    ensures
        (flags_byte(z, n, h, c) & 0x80 != 0) == z,
        (flags_byte(z, n, h, c) & 0x40 != 0) == n,
        (flags_byte(z, n, h, c) & 0x20 != 0) == h,
        (flags_byte(z, n, h, c) & 0x10 != 0) == c,
{
    let zb: u8 = if z { 0x80 } else { 0 };
    let nb: u8 = if n { 0x40 } else { 0 };
    let hb: u8 = if h { 0x20 } else { 0 };
    let cb: u8 = if c { 0x10 } else { 0 };
    assert(((zb | nb | hb | cb) & 0x80 != 0) == (zb == 0x80) && ((zb | nb | hb | cb) & 0x40 != 0)
        == (nb == 0x40) && ((zb | nb | hb | cb) & 0x20 != 0) == (hb == 0x20) && ((zb | nb | hb
        | cb) & 0x10 != 0) == (cb == 0x10)) by (bit_vector)
        requires
            zb == 0x80 || zb == 0,
            nb == 0x40 || nb == 0,
            hb == 0x20 || hb == 0,
            cb == 0x10 || cb == 0,
    ;
}

/// The new value of a flag: the update if there is one, else the current value.
pub open spec fn pick(update: Option<bool>, current: bool) -> bool {
    match update {
        Some(b) => b,
        None => current,
    }
}

/// The register values after boot.
pub open spec fn boot_registers() -> Register {
    Register {
        a: 0x01,
        b: 0x00,
        c: 0x13,
        d: 0x00,
        e: 0xD8,
        h: 0x01,
        l: 0x4D,
        f: 0xB0,
        sp: 0xFFFE,
        pc: 0x0100,
    }
}

/// `JR`'s target: PC plus the sign-extended offset, modulo 2^16.
pub open spec fn relative(pc: u16, e: u8) -> u16 {
    ((pc + operations::sign_extend(e)) % 65536) as u16
}

/// The accumulator operation `op` on A and `b`, with the incoming carry `c`.
pub open spec fn alu_spec(op: AluOp, a: u8, b: u8, c: bool) -> operations::Result {
    match op {
        AluOp::Add => add_result(a, b),
        AluOp::Adc => adc_result(a, b, c),
        AluOp::Sub => sub_result(a, b),
        AluOp::Sbc => sbc_result(a, b, c),
        AluOp::And => and_result(a, b),
        AluOp::Xor => xor_result(a, b),
        AluOp::Or => or_result(a, b),
        AluOp::Cp => cp_result(a, b),
    }
}

/// The rotate or shift `op` of `v`, with the flag byte `f` supplying the carry.
pub open spec fn shift_spec(op: ShiftOp, v: u8, f: u8) -> operations::Result {
    match op {
        ShiftOp::Rlc => rlc_result(v),
        ShiftOp::Rrc => rrc_result(v),
        ShiftOp::Rl => rl_result(v, f),
        ShiftOp::Rr => rr_result(v, f),
        ShiftOp::Sla => sla_result(v),
        ShiftOp::Sra => sra_result(v),
        ShiftOp::Swap => swap_result(v),
        ShiftOp::Srl => srl_result(v),
    }
}

/// The number of the lowest set bit among the five interrupt bits of `p`.
pub open spec fn lowest_pending(p: u8) -> u8 {
    if p & 1 != 0 {
        0
    } else if p & 2 != 0 {
        1
    } else if p & 4 != 0 {
        2
    } else if p & 8 != 0 {
        3
    } else {
        4
    }
}

impl State {
    /// F keeps its low nibble zero, and the address space has 2^16 bytes.
    pub open spec fn wf(self) -> bool {
        self.regs.f & 0x0F == 0 && self.mem.len() == 65536
    }

    pub open spec fn read8(self, addr: u16) -> u8 {
        self.mem[addr as int]
    }

    /// Little-endian: the low byte at `addr`, the high byte at `addr + 1`.
    pub open spec fn read16(self, addr: u16) -> u16 {
        pair(self.read8(addr.wrapping_add(1)), self.read8(addr))
    }

    pub open spec fn write8(self, addr: u16, v: u8) -> State {
        State { mem: self.mem.update(addr as int, v), ..self }
    }

    pub open spec fn with_regs(self, regs: Register) -> State {
        State { regs, ..self }
    }

    pub open spec fn with_pc(self, pc: u16) -> State {
        self.with_regs(Register { pc, ..self.regs })
    }

    pub open spec fn with_sp(self, sp: u16) -> State {
        self.with_regs(Register { sp, ..self.regs })
    }

    /// PC moved past `n` bytes.
    pub open spec fn skip(self, n: u16) -> State {
        self.with_pc(self.regs.pc.wrapping_add(n))
    }

    /// The byte at PC.
    pub open spec fn imm8(self) -> u8 {
        self.read8(self.regs.pc)
    }

    /// The little-endian word at PC.
    pub open spec fn imm16(self) -> u16 {
        self.read16(self.regs.pc)
    }

    pub open spec fn flag(self, flag: Flag) -> bool {
        self.regs.f & flag_mask(flag) != 0
    }

    pub open spec fn hl(self) -> u16 {
        pair(self.regs.h, self.regs.l)
    }

    pub open spec fn reg8(self, r: Reg8) -> u8 {
        match r {
            Reg8::B => self.regs.b,
            Reg8::C => self.regs.c,
            Reg8::D => self.regs.d,
            Reg8::E => self.regs.e,
            Reg8::H => self.regs.h,
            Reg8::L => self.regs.l,
            Reg8::HLInd => self.read8(self.hl()),
            Reg8::A => self.regs.a,
        }
    }

    pub open spec fn set_reg8(self, r: Reg8, v: u8) -> State {
        match r {
            Reg8::B => self.with_regs(Register { b: v, ..self.regs }),
            Reg8::C => self.with_regs(Register { c: v, ..self.regs }),
            Reg8::D => self.with_regs(Register { d: v, ..self.regs }),
            Reg8::E => self.with_regs(Register { e: v, ..self.regs }),
            Reg8::H => self.with_regs(Register { h: v, ..self.regs }),
            Reg8::L => self.with_regs(Register { l: v, ..self.regs }),
            Reg8::HLInd => self.write8(self.hl(), v),
            Reg8::A => self.with_regs(Register { a: v, ..self.regs }),
        }
    }

    pub open spec fn reg16(self, r: Reg16) -> u16 {
        match r {
            Reg16::BC => pair(self.regs.b, self.regs.c),
            Reg16::DE => pair(self.regs.d, self.regs.e),
            Reg16::HL => self.hl(),
            Reg16::SP => self.regs.sp,
        }
    }

    pub open spec fn set_reg16(self, r: Reg16, v: u16) -> State {
        match r {
            Reg16::BC => self.with_regs(Register { b: high(v), c: low(v), ..self.regs }),
            Reg16::DE => self.with_regs(Register { d: high(v), e: low(v), ..self.regs }),
            Reg16::HL => self.with_regs(Register { h: high(v), l: low(v), ..self.regs }),
            Reg16::SP => self.with_sp(v),
        }
    }

    pub open spec fn stack_pair(self, r: StackPair) -> u16 {
        match r {
            StackPair::BC => pair(self.regs.b, self.regs.c),
            StackPair::DE => pair(self.regs.d, self.regs.e),
            StackPair::HL => self.hl(),
            StackPair::AF => pair(self.regs.a, self.regs.f),
        }
    }

    /// Writing AF keeps only the high nibble of the low byte in F.
    pub open spec fn set_stack_pair(self, r: StackPair, v: u16) -> State {
        match r {
            StackPair::BC => self.set_reg16(Reg16::BC, v),
            StackPair::DE => self.set_reg16(Reg16::DE, v),
            StackPair::HL => self.set_reg16(Reg16::HL, v),
            StackPair::AF => self.with_regs(Register { a: high(v), f: low(v) & 0xF0, ..self.regs }),
        }
    }

    /// Each flag takes its update, if it has one.
    pub open spec fn with_flags(
        self,
        z: Option<bool>,
        n: Option<bool>,
        h: Option<bool>,
        c: Option<bool>,
    ) -> State {
        self.with_regs(
            Register {
                f: flags_byte(
                    pick(z, self.flag(Flag::Z)),
                    pick(n, self.flag(Flag::N)),
                    pick(h, self.flag(Flag::H)),
                    pick(c, self.flag(Flag::C)),
                ),
                ..self.regs
            },
        )
    }

    /// One flag set to `value`, the other three kept.
    pub open spec fn with_flag(self, flag: Flag, value: bool) -> State {
        self.with_flags(
            if flag == Flag::Z { Some(value) } else { None },
            if flag == Flag::N { Some(value) } else { None },
            if flag == Flag::H { Some(value) } else { None },
            if flag == Flag::C { Some(value) } else { None },
        )
    }

    /// `bytes` copied into memory from `start` on.
    pub open spec fn loaded(self, start: u16, bytes: Seq<u8>) -> State {
        State {
            mem: Seq::new(
                65536,
                |i: int|
                    if start <= i < start + bytes.len() {
                        bytes[i - start]
                    } else {
                        self.mem[i]
                    },
            ),
            ..self
        }
    }

    pub open spec fn apply(self, r: operations::Result) -> State {
        self.with_flags(r.zero, r.add_sub, r.half_carry, r.carry)
    }

    pub open spec fn apply16(self, r: operations::Result16) -> State {
        self.with_flags(r.zero, r.add_sub, r.half_carry, r.carry)
    }

    /// The value of an ALU result written to `dst`, and its flags to F.
    pub open spec fn store(self, dst: Reg8, r: operations::Result) -> State {
        self.set_reg8(dst, r.value).apply(r)
    }

    /// A rotate of A (`RLCA`, `RRCA`, `RLA`, `RRA`): its value to A, and
    /// its carry to C; Z, N and H are cleared.
    pub open spec fn rotated_a(self, r: operations::Result) -> State {
        self.set_reg8(Reg8::A, r.value).with_flags(Some(false), Some(false), Some(false), r.carry)
    }

    pub open spec fn condition(self, c: Cond) -> bool {
        match c {
            Cond::NZ => !self.flag(Flag::Z),
            Cond::Z => self.flag(Flag::Z),
            Cond::NC => !self.flag(Flag::C),
            Cond::C => self.flag(Flag::C),
        }
    }

    /// SP is decremented and the high byte written, then again for the low byte.
    pub open spec fn push(self, v: u16) -> State {
        let sp1 = self.regs.sp.wrapping_sub(1);
        let sp2 = sp1.wrapping_sub(1);
        self.write8(sp1, high(v)).write8(sp2, low(v)).with_sp(sp2)
    }

    /// The word that a pop reads: low byte at SP, high byte at SP + 1.
    pub open spec fn top(self) -> u16 {
        self.read16(self.regs.sp)
    }

    /// SP after a pop.
    pub open spec fn popped(self) -> State {
        self.with_sp(self.regs.sp.wrapping_add(2))
    }

    /// The interrupts both requested (IF) and enabled (IE).
    pub open spec fn pending(self) -> u8 {
        self.read8(IE_ADDR) & self.read8(IF_ADDR) & 0x1F
    }

    /// The address of an indirect operand, and the state with HL stepped.
    pub open spec fn indirect_addr(self, ind: Indirect) -> u16 {
        match ind {
            Indirect::BC => pair(self.regs.b, self.regs.c),
            Indirect::DE => pair(self.regs.d, self.regs.e),
            _ => self.hl(),
        }
    }

    pub open spec fn step_hl(self, ind: Indirect) -> State {
        match ind {
            Indirect::HLInc => self.set_reg16(Reg16::HL, self.hl().wrapping_add(1)),
            Indirect::HLDec => self.set_reg16(Reg16::HL, self.hl().wrapping_sub(1)),
            _ => self,
        }
    }

    /// An instruction of the prefixed page, with its cycles (the prefix included).
    pub open spec fn run_cb(self, i: CbInstr) -> (State, u8) {
        match i {
            CbInstr::Shift(op, r) => {
                let res = shift_spec(op, self.reg8(r), self.regs.f);
                (self.store(r, res), if r == Reg8::HLInd { 4 } else { 2 })
            },
            CbInstr::TestBit(n, r) => {
                (self.apply(bit_result(n, self.reg8(r))), if r == Reg8::HLInd { 3 } else { 2 })
            },
            CbInstr::ResBit(n, r) => {
                (self.set_reg8(r, self.reg8(r) & !(1u8 << n)), if r == Reg8::HLInd { 4 } else { 2 })
            },
            CbInstr::SetBit(n, r) => {
                (self.set_reg8(r, self.reg8(r) | (1u8 << n)), if r == Reg8::HLInd { 4 } else { 2 })
            },
        }
    }

    /// An instruction of the unprefixed page, PC already past its opcode:
    /// the new state and the M-cycles taken.
    #[verifier::opaque]
    pub open spec fn run(self, i: Instr) -> (State, u8) {
        let a = self.regs.a;
        match i {
            Instr::Nop => (self, 1),
            Instr::Stop => (State { stopped: true, ..self.skip(1) }, 1),
            Instr::Halt => {
                if self.ime || self.pending() == 0 {
                    (State { halted: true, ..self }, 1)
                } else {
                    (State { halt_bug: true, ..self }, 1)
                }
            },
            Instr::Di => (State { ime: false, ime_pending: false, ..self }, 1),
            Instr::Ei => (State { ime_pending: true, ..self }, 1),
            Instr::Ld(dst, src) => (
                self.set_reg8(dst, self.reg8(src)),
                if dst == Reg8::HLInd || src == Reg8::HLInd { 2 } else { 1 },
            ),
            Instr::LdImm(r) => (
                self.skip(1).set_reg8(r, self.imm8()),
                if r == Reg8::HLInd { 3 } else { 2 },
            ),
            Instr::LdImm16(r) => (self.skip(2).set_reg16(r, self.imm16()), 3),
            Instr::StoreA(ind) => (self.write8(self.indirect_addr(ind), a).step_hl(ind), 2),
            Instr::LoadA(ind) => (
                self.set_reg8(Reg8::A, self.read8(self.indirect_addr(ind))).step_hl(ind),
                2,
            ),
            Instr::StoreSp => {
                let addr = self.imm16();
                let sp = self.regs.sp;
                (self.skip(2).write8(addr, low(sp)).write8(addr.wrapping_add(1), high(sp)), 5)
            },
            Instr::Inc16(r) => (self.set_reg16(r, self.reg16(r).wrapping_add(1)), 2),
            Instr::Dec16(r) => (self.set_reg16(r, self.reg16(r).wrapping_sub(1)), 2),
            Instr::Inc(r) => (
                self.store(r, inc_result(self.reg8(r))),
                if r == Reg8::HLInd { 3 } else { 1 },
            ),
            Instr::Dec(r) => (
                self.store(r, dec_result(self.reg8(r))),
                if r == Reg8::HLInd { 3 } else { 1 },
            ),
            Instr::AddHl(r) => {
                let res = add16_result(self.hl(), self.reg16(r));
                (self.set_reg16(Reg16::HL, res.value).apply16(res), 2)
            },
            Instr::Rlca => {
                let res = rlc_result(a);
                (self.rotated_a(res), 1)
            },
            Instr::Rrca => {
                let res = rrc_result(a);
                (self.rotated_a(res), 1)
            },
            Instr::Rla => {
                let res = rl_result(a, self.regs.f);
                (self.rotated_a(res), 1)
            },
            Instr::Rra => {
                let res = rr_result(a, self.regs.f);
                (self.rotated_a(res), 1)
            },
            Instr::Daa => (
                self.store(
                    Reg8::A,
                    daa_result(a, self.flag(Flag::N), self.flag(Flag::H), self.flag(Flag::C)),
                ),
                1,
            ),
            Instr::Cpl => (
                self.set_reg8(Reg8::A, !a).with_flags(None, Some(true), Some(true), None),
                1,
            ),
            Instr::Scf => (self.with_flags(None, Some(false), Some(false), Some(true)), 1),
            Instr::Ccf => (
                self.with_flags(None, Some(false), Some(false), Some(!self.flag(Flag::C))),
                1,
            ),
            Instr::Jr => (self.skip(1).with_pc(relative(self.skip(1).regs.pc, self.imm8())), 3),
            Instr::JrIf(c) => {
                if self.condition(c) {
                    (self.skip(1).with_pc(relative(self.skip(1).regs.pc, self.imm8())), 3)
                } else {
                    (self.skip(1), 2)
                }
            },
            Instr::Jp => (self.skip(2).with_pc(self.imm16()), 4),
            Instr::JpIf(c) => {
                if self.condition(c) {
                    (self.skip(2).with_pc(self.imm16()), 4)
                } else {
                    (self.skip(2), 3)
                }
            },
            Instr::JpHl => (self.with_pc(self.hl()), 1),
            Instr::Call => {
                let s = self.skip(2);
                (s.push(s.regs.pc).with_pc(self.imm16()), 6)
            },
            Instr::CallIf(c) => {
                let s = self.skip(2);
                if self.condition(c) {
                    (s.push(s.regs.pc).with_pc(self.imm16()), 6)
                } else {
                    (s, 3)
                }
            },
            Instr::Ret => (self.popped().with_pc(self.top()), 4),
            Instr::RetIf(c) => {
                if self.condition(c) {
                    (self.popped().with_pc(self.top()), 5)
                } else {
                    (self, 2)
                }
            },
            Instr::Reti => (State { ime: true, ..self.popped().with_pc(self.top()) }, 4),
            Instr::Rst(v) => (self.push(self.regs.pc).with_pc(v as u16), 4),
            Instr::Push(r) => (self.push(self.stack_pair(r)), 4),
            Instr::Pop(r) => (self.popped().set_stack_pair(r, self.top()), 3),
            Instr::Alu(op, r) => (
                self.store(Reg8::A, alu_spec(op, a, self.reg8(r), self.flag(Flag::C))),
                if r == Reg8::HLInd { 2 } else { 1 },
            ),
            Instr::AluImm(op) => (
                self.skip(1).store(Reg8::A, alu_spec(op, a, self.imm8(), self.flag(Flag::C))),
                2,
            ),
            Instr::StoreHigh => (self.skip(1).write8((0xFF00 + self.imm8()) as u16, a), 3),
            Instr::LoadHigh => (
                self.skip(1).set_reg8(Reg8::A, self.read8((0xFF00 + self.imm8()) as u16)),
                3,
            ),
            Instr::StoreHighC => (self.write8((0xFF00 + self.regs.c) as u16, a), 2),
            Instr::LoadHighC => (
                self.set_reg8(Reg8::A, self.read8((0xFF00 + self.regs.c) as u16)),
                2,
            ),
            Instr::StoreAbs => (self.skip(2).write8(self.imm16(), a), 4),
            Instr::LoadAbs => (self.skip(2).set_reg8(Reg8::A, self.read8(self.imm16())), 4),
            Instr::AddSp => {
                let res = add_sp_result(self.regs.sp, self.imm8());
                (self.skip(1).with_sp(res.value).apply16(res), 4)
            },
            Instr::LdHlSp => {
                let res = add_sp_result(self.regs.sp, self.imm8());
                (self.skip(1).set_reg16(Reg16::HL, res.value).apply16(res), 3)
            },
            Instr::LdSpHl => (self.with_sp(self.hl()), 2),
            Instr::Prefix => self.skip(1).run_cb(decode_cb_spec(self.imm8())),
            Instr::Illegal => (self, 0),
        }
    }

    /// Fetch one opcode (PC stays put once after the HALT bug), decode it
    /// and run it; IME turns on after the instruction that follows `EI`,
    /// unless that instruction is `DI`.
    pub open spec fn execute(self) -> (State, Result<u8, CpuError>) {
        let pc = self.regs.pc;
        let op = self.read8(pc);
        let s0 = State { halt_bug: false, ime_pending: false, ..self };
        let s1 = if self.halt_bug { s0 } else { s0.skip(1) };
        let i = decode_spec(op);
        if i == Instr::Illegal {
            (s1, Err(CpuError::IllegalOpcode { opcode: op, pc }))
        } else {
            let (s2, cycles) = s1.run(i);
            if self.ime_pending && i != Instr::Di {
                (State { ime: true, ..s2 }, Ok(cycles))
            } else {
                (s2, Ok(cycles))
            }
        }
    }

    /// Entering the handler of the lowest pending interrupt: its IF bit is
    /// cleared, IME is cleared, PC is pushed and set to the vector.
    pub open spec fn service(self) -> State {
        let n = lowest_pending(self.pending());
        let s = State {
            ime: false,
            ..self.write8(IF_ADDR, self.read8(IF_ADDR) & !(1u8 << n))
        };
        s.push(s.regs.pc).with_pc((0x40 + 8 * n) as u16)
    }

    /// One step: leave STOP on a joypad request; stay in STOP, or in HALT
    /// while nothing is pending, for one cycle; otherwise wake, service an
    /// interrupt if IME allows (5 cycles, 6 on waking from HALT), and
    /// execute one instruction.
    pub open spec fn step(self) -> (State, Result<u32, CpuError>) {
        let s = if self.stopped && self.read8(IF_ADDR) & 0x10 != 0 {
            State { stopped: false, ..self }
        } else {
            self
        };
        if s.stopped || (s.halted && s.pending() == 0) {
            (s, Ok(1))
        } else {
            let s1 = State { halted: false, ..s };
            if s1.ime && s1.pending() != 0 {
                let extra: u32 = if s.halted { 6 } else { 5 };
                let (s2, r) = s1.service().execute();
                (s2, match r {
                    Ok(c) => Ok((c + extra) as u32),
                    Err(e) => Err(e),
                })
            } else {
                let (s2, r) = s1.execute();
                (s2, match r {
                    Ok(c) => Ok(c as u32),
                    Err(e) => Err(e),
                })
            }
        }
    }
}

} // verus!
