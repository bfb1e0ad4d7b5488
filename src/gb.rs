//! The CPU: register file, memory, and the fetch-decode-execute machinery.
use vstd::prelude::*;

use crate::instruction::{
    decode, decode_cb, decode_cb_spec, AluOp, CbInstr, Cond, Indirect, Instr, Reg16, Reg8,
    ShiftOp, StackPair,
};
use crate::model::{
    alu_spec, boot_registers, flag_mask, flags_byte, high, low, lowest_pending, pair, relative,
    shift_spec, State, IE_ADDR, IF_ADDR,
};
use crate::operations;

verus! {

/// Bytes in the address space.
pub const MEMORY_SIZE: usize = 65536;

/// The register file of the CPU.
#[derive(Copy, Clone, Debug, PartialEq, Eq, Structural)]
pub struct Register {
    pub a: u8,
    pub b: u8,
    pub c: u8,
    pub d: u8,
    pub e: u8,
    pub h: u8,
    pub l: u8,
    pub f: u8,
    pub sp: u16,
    pub pc: u16,
}

/// The condition flags held in the high nibble of F.
#[derive(Copy, Clone, Debug, PartialEq, Eq, Structural)]
pub enum Flag {
    Z,
    N,
    H,
    C,
}

/// The bit of F that holds a flag.
fn get_flag_bit(flag: Flag) -> (r: u8)
    ensures
        r == flag_mask(flag),
{
    match flag {
        Flag::Z => 0x80,
        Flag::N => 0x40,
        Flag::H => 0x20,
        Flag::C => 0x10,
    }
}

/// F built from four flags.
fn flags_from(z: bool, n: bool, h: bool, c: bool) -> (r: u8)
    ensures
        r == flags_byte(z, n, h, c),
        r & 0x0F == 0,
{
    proof {
        lemma_flags_byte_low(z, n, h, c);
    }
    (if z { 0x80u8 } else { 0u8 }) | (if n { 0x40u8 } else { 0u8 }) | (if h { 0x20u8 } else {
        0u8
    }) | (if c { 0x10u8 } else { 0u8 })
}

proof fn lemma_flags_byte_low(z: bool, n: bool, h: bool, c: bool)
    ensures
        flags_byte(z, n, h, c) & 0x0F == 0,
{
    let (zb, nb, hb, cb) = (
        if z { 0x80u8 } else { 0u8 },
        if n { 0x40u8 } else { 0u8 },
        if h { 0x20u8 } else { 0u8 },
        if c { 0x10u8 } else { 0u8 },
    );
    assert((zb | nb | hb | cb) & 0x0F == 0) by (bit_vector)
        requires
            zb == 0x80 || zb == 0,
            nb == 0x40 || nb == 0,
            hb == 0x20 || hb == 0,
            cb == 0x10 || cb == 0,
    ;
}

proof fn lemma_mask_high_nibble(v: u8)
    ensures
        (v & 0xF0) & 0x0F == 0,
{
    assert((v & 0xF0) & 0x0F == 0) by (bit_vector);
}

impl Register {
    /// The register values after boot.
    fn new() -> (r: Self)
        ensures
            r == boot_registers(),
    {
        Register {
            a: 0x01,
            b: 0x00,
            c: 0x13,
            d: 0x00,
            e: 0xD8,
            h: 0x01,
            l: 0x4D,
            f: 0xB0,
            sp: 0xFFFE,
            pc: 0x0100,
        }
    }
}

/// The flat 16-bit address space.
#[derive(Copy, Clone, Debug, PartialEq, Eq)]
pub struct Memory {
    pub data: [u8; MEMORY_SIZE],
}

impl View for Memory {
    type V = Seq<u8>;

    open spec fn view(&self) -> Seq<u8> {
        self.data@
    }
}

impl Memory {
    /// Every byte zero.
    pub fn new() -> (r: Self)
        ensures
            r@.len() == 65536,
            forall|i: int| 0 <= i < 65536 ==> r@[i] == 0,
    {
        Memory { data: [0; MEMORY_SIZE] }
    }

    pub fn read8(&self, addr: u16) -> (r: u8)
        ensures
            r == self@[addr as int],
    {
        self.data[addr as usize]
    }

    pub fn write8(&mut self, addr: u16, v: u8)
        ensures
            final(self)@ == old(self)@.update(addr as int, v),
    {
        self.data[addr as usize] = v;
    }

    /// Little-endian: the low byte at `addr`, the high byte at `addr + 1`.
    pub fn read16(&self, addr: u16) -> (r: u16)
        ensures
            r == pair(self@[addr.wrapping_add(1) as int], self@[addr as int]),
    {
        let lo = self.read8(addr);
        let hi = self.read8(addr.wrapping_add(1));
        hi as u16 * 256 + lo as u16
    }

    /// Little-endian: the low byte to `addr`, the high byte to `addr + 1`.
    pub fn write16(&mut self, addr: u16, v: u16)
        ensures
            final(self)@ == old(self)@.update(addr as int, low(v)).update(
                addr.wrapping_add(1) as int,
                high(v),
            ),
    {
        self.write8(addr, (v % 256) as u8);
        self.write8(addr.wrapping_add(1), (v / 256) as u8);
    }
}

/// Why a step could not complete.
#[derive(Copy, Clone, Debug, PartialEq, Eq, Structural)]
pub enum CpuError {
    /// An opcode that the CPU does not define, and the address it was fetched from.
    IllegalOpcode { opcode: u8, pc: u16 },
}

/// The five interrupt sources, in order of priority.
#[derive(Copy, Clone, Debug, PartialEq, Eq, Structural)]
pub enum Interrupt {
    VBlank,
    LcdStat,
    Timer,
    Serial,
    Joypad,
}

/// The bit of IF and IE that belongs to an interrupt.
pub open spec fn interrupt_mask(i: Interrupt) -> u8 {
    match i {
        Interrupt::VBlank => 0x01,
        Interrupt::LcdStat => 0x02,
        Interrupt::Timer => 0x04,
        Interrupt::Serial => 0x08,
        Interrupt::Joypad => 0x10,
    }
}

/// The CPU with the memory it owns.
pub struct CPU {
    pub registers: Register,
    pub memory: Memory,
    /// Interrupt master enable.
    pub ime: bool,
    /// Set by `EI`: IME becomes 1 after the instruction that follows.
    pub ime_pending: bool,
    pub halted: bool,
    pub stopped: bool,
    /// The next opcode fetch does not advance PC.
    pub halt_bug: bool,
}

impl View for CPU {
    type V = State;

    open spec fn view(&self) -> State {
        State {
            regs: self.registers,
            mem: self.memory@,
            ime: self.ime,
            ime_pending: self.ime_pending,
            halted: self.halted,
            stopped: self.stopped,
            halt_bug: self.halt_bug,
        }
    }
}

/// The accumulator operation `op`.
fn alu(op: AluOp, a: u8, b: u8, carry: bool) -> (r: operations::Result)
    ensures
        r == alu_spec(op, a, b, carry),
{
    match op {
        AluOp::Add => operations::add(a, b),
        AluOp::Adc => operations::adc(a, b, carry),
        AluOp::Sub => operations::sub(a, b),
        AluOp::Sbc => operations::sbc(a, b, carry),
        AluOp::And => operations::and(a, b),
        AluOp::Xor => operations::xor(a, b),
        AluOp::Or => operations::or(a, b),
        AluOp::Cp => operations::cp(a, b),
    }
}

/// The rotate or shift `op`, the carry taken from the flag byte `f`.
fn shift(op: ShiftOp, v: u8, f: u8) -> (r: operations::Result)
    ensures
        r == shift_spec(op, v, f),
{
    match op {
        ShiftOp::Rlc => operations::rlc(v),
        ShiftOp::Rrc => operations::rrc(v),
        ShiftOp::Rl => operations::rl(v, f),
        ShiftOp::Rr => operations::rr(v, f),
        ShiftOp::Sla => operations::sla(v),
        ShiftOp::Sra => operations::sra(v),
        ShiftOp::Swap => operations::swap(v),
        ShiftOp::Srl => operations::srl(v),
    }
}

/// PC plus a sign-extended offset, modulo 2^16.
fn relative_target(pc: u16, e: u8) -> (r: u16)
    ensures
        r == relative(pc, e),
{
    if e < 0x80 {
        pc.wrapping_add(e as u16)
    } else {
        pc.wrapping_sub(256 - e as u16)
    }
}

/// The number of the lowest set bit among the five interrupt bits.
fn lowest_bit(p: u8) -> (r: u8)
    ensures
        r == lowest_pending(p),
        r < 5,
{
    if p & 1 != 0 {
        0
    } else if p & 2 != 0 {
        1
    } else if p & 4 != 0 {
        2
    } else if p & 8 != 0 {
        3
    } else {
        4
    }
}

impl CPU {
    /// F keeps its low nibble zero.
    pub open spec fn wf(&self) -> bool {
        self@.wf()
    }

    /// A CPU in the post-boot state, with every byte of memory zero.
    pub fn new() -> (r: Self)
        ensures
            r.wf(),
            r.registers == boot_registers(),
            forall|i: int| 0 <= i < 65536 ==> r.memory@[i] == 0,
            !r.ime && !r.ime_pending && !r.halted && !r.stopped && !r.halt_bug,
    {
        let r = CPU {
            registers: Register::new(),
            memory: Memory::new(),
            ime: false,
            ime_pending: false,
            halted: false,
            stopped: false,
            halt_bug: false,
        };
        assert(0xB0u8 & 0x0F == 0) by (bit_vector);
        r
    }

    /// Back to the post-boot registers and the running state; memory is kept.
    pub fn reset(&mut self)
        ensures
            final(self)@ == (State {
                regs: boot_registers(),
                ime: false,
                ime_pending: false,
                halted: false,
                stopped: false,
                halt_bug: false,
                ..old(self)@
            }),
            final(self).wf(),
    {
        self.registers = Register::new();
        self.ime = false;
        self.ime_pending = false;
        self.halted = false;
        self.stopped = false;
        self.halt_bug = false;
        assert(0xB0u8 & 0x0F == 0) by (bit_vector);
    }

    /// Copies `program` into memory from address `start` on; nothing else changes.
    pub fn load(&mut self, start: u16, program: &[u8])
        requires
            start + program@.len() <= 65536,
        ensures
            final(self)@ == old(self)@.loaded(start, program@),
    {
        let ghost s0 = self@;
        let mut k: usize = 0;
        while k < program.len()
            invariant
                k <= program@.len(),
                start + program@.len() <= 65536,
                self@ == (State { mem: self@.mem, ..s0 }),
                self@.mem.len() == 65536,
                forall|i: int|
                    0 <= i < 65536 ==> #[trigger] self@.mem[i] == if start <= i < start + k {
                        program@[i - start]
                    } else {
                        s0.mem[i]
                    },
            decreases program@.len() - k,
        {
            self.memory.write8((start as usize + k) as u16, program[k]);
            k += 1;
        }
        assert(self@.mem =~= s0.loaded(start, program@).mem);
    }

    pub fn get_flag(&self, flag: Flag) -> (r: bool)
        ensures
            r == self@.flag(flag),
    {
        self.registers.f & get_flag_bit(flag) != 0
    }

    /// Sets one flag and leaves the other three.
    pub fn set_flag(&mut self, flag: Flag, value: bool)
        ensures
            final(self)@ == old(self)@.with_flag(flag, value),
            final(self).wf(),
    {
        let z = if flag == Flag::Z { Some(value) } else { None };
        let n = if flag == Flag::N { Some(value) } else { None };
        let h = if flag == Flag::H { Some(value) } else { None };
        let c = if flag == Flag::C { Some(value) } else { None };
        self.apply_flags(z, n, h, c);
    }

    /// Each flag takes its update, if it has one.
    fn apply_flags(&mut self, z: Option<bool>, n: Option<bool>, h: Option<bool>, c: Option<bool>)
        ensures
            final(self)@ == old(self)@.with_flags(z, n, h, c),
            final(self).wf(),
    {
        let z = match z {
            Some(b) => b,
            None => self.get_flag(Flag::Z),
        };
        let n = match n {
            Some(b) => b,
            None => self.get_flag(Flag::N),
        };
        let h = match h {
            Some(b) => b,
            None => self.get_flag(Flag::H),
        };
        let c = match c {
            Some(b) => b,
            None => self.get_flag(Flag::C),
        };
        self.registers.f = flags_from(z, n, h, c);
    }

    fn apply(&mut self, r: operations::Result)
        ensures
            final(self)@ == old(self)@.apply(r),
            final(self).wf(),
    {
        self.apply_flags(r.zero, r.add_sub, r.half_carry, r.carry);
    }

    fn apply16(&mut self, r: operations::Result16)
        ensures
            final(self)@ == old(self)@.apply16(r),
            final(self).wf(),
    {
        self.apply_flags(r.zero, r.add_sub, r.half_carry, r.carry);
    }

    pub fn get_af(&self) -> (r: u16)
        ensures
            r == pair(self.registers.a, self.registers.f),
    {
        self.registers.a as u16 * 256 + self.registers.f as u16
    }

    pub fn get_bc(&self) -> (r: u16)
        ensures
            r == pair(self.registers.b, self.registers.c),
    {
        self.registers.b as u16 * 256 + self.registers.c as u16
    }

    pub fn get_de(&self) -> (r: u16)
        ensures
            r == pair(self.registers.d, self.registers.e),
    {
        self.registers.d as u16 * 256 + self.registers.e as u16
    }

    pub fn get_hl(&self) -> (r: u16)
        ensures
            r == self@.hl(),
    {
        self.registers.h as u16 * 256 + self.registers.l as u16
    }

    /// A from the high byte; F from the high nibble of the low byte.
    pub fn set_af(&mut self, value: u16)
        requires
            old(self).wf(),
        ensures
            final(self)@ == old(self)@.set_stack_pair(StackPair::AF, value),
            final(self).wf(),
    {
        self.registers.a = (value / 256) as u8;
        self.registers.f = (value % 256) as u8 & 0xF0;
        proof {
            lemma_mask_high_nibble((value % 256) as u8);
        }
    }

    pub fn set_bc(&mut self, value: u16)
        ensures
            final(self)@ == old(self)@.set_reg16(Reg16::BC, value),
    {
        self.registers.b = (value / 256) as u8;
        self.registers.c = (value % 256) as u8;
    }

    pub fn set_de(&mut self, value: u16)
        ensures
            final(self)@ == old(self)@.set_reg16(Reg16::DE, value),
    {
        self.registers.d = (value / 256) as u8;
        self.registers.e = (value % 256) as u8;
    }

    pub fn set_hl(&mut self, value: u16)
        ensures
            final(self)@ == old(self)@.set_reg16(Reg16::HL, value),
    {
        self.registers.h = (value / 256) as u8;
        self.registers.l = (value % 256) as u8;
    }

    /// The byte at PC; PC moves past it.
    pub fn next_instruction(&mut self) -> (r: u8)
        ensures
            r == old(self)@.imm8(),
            final(self)@ == old(self)@.skip(1),
    {
        let v = self.memory.read8(self.registers.pc);
        self.registers.pc = self.registers.pc.wrapping_add(1);
        v
    }

    /// The little-endian word at PC; PC moves past it.
    pub fn read_word(&mut self) -> (r: u16)
        ensures
            r == old(self)@.imm16(),
            final(self)@ == old(self)@.skip(2),
    {
        let lo = self.next_instruction();
        let hi = self.next_instruction();
        hi as u16 * 256 + lo as u16
    }

    /// Pops the little-endian word at SP; SP moves up by two.
    pub fn pop(&mut self) -> (r: u16)
        ensures
            r == old(self)@.top(),
            final(self)@ == old(self)@.popped(),
    {
        let value = self.memory.read16(self.registers.sp);
        self.registers.sp = self.registers.sp.wrapping_add(2);
        value
    }

    /// Pushes a word: the high byte below SP, then the low byte below that.
    pub fn push(&mut self, value: u16)
        ensures
            final(self)@ == old(self)@.push(value),
    {
        self.registers.sp = self.registers.sp.wrapping_sub(1);
        self.memory.write8(self.registers.sp, (value / 256) as u8);
        self.registers.sp = self.registers.sp.wrapping_sub(1);
        self.memory.write8(self.registers.sp, (value % 256) as u8);
    }

    fn reg8(&self, r: Reg8) -> (v: u8)
        ensures
            v == self@.reg8(r),
    {
        match r {
            Reg8::B => self.registers.b,
            Reg8::C => self.registers.c,
            Reg8::D => self.registers.d,
            Reg8::E => self.registers.e,
            Reg8::H => self.registers.h,
            Reg8::L => self.registers.l,
            Reg8::HLInd => self.memory.read8(self.get_hl()),
            Reg8::A => self.registers.a,
        }
    }

    fn set_reg8(&mut self, r: Reg8, v: u8)
        ensures
            final(self)@ == old(self)@.set_reg8(r, v),
    {
        match r {
            Reg8::B => self.registers.b = v,
            Reg8::C => self.registers.c = v,
            Reg8::D => self.registers.d = v,
            Reg8::E => self.registers.e = v,
            Reg8::H => self.registers.h = v,
            Reg8::L => self.registers.l = v,
            Reg8::HLInd => {
                let addr = self.get_hl();
                self.memory.write8(addr, v);
            },
            Reg8::A => self.registers.a = v,
        }
    }

    fn reg16(&self, r: Reg16) -> (v: u16)
        ensures
            v == self@.reg16(r),
    {
        match r {
            Reg16::BC => self.get_bc(),
            Reg16::DE => self.get_de(),
            Reg16::HL => self.get_hl(),
            Reg16::SP => self.registers.sp,
        }
    }

    fn set_reg16(&mut self, r: Reg16, v: u16)
        ensures
            final(self)@ == old(self)@.set_reg16(r, v),
    {
        match r {
            Reg16::BC => self.set_bc(v),
            Reg16::DE => self.set_de(v),
            Reg16::HL => self.set_hl(v),
            Reg16::SP => self.registers.sp = v,
        }
    }

    fn stack_pair(&self, r: StackPair) -> (v: u16)
        ensures
            v == self@.stack_pair(r),
    {
        match r {
            StackPair::BC => self.get_bc(),
            StackPair::DE => self.get_de(),
            StackPair::HL => self.get_hl(),
            StackPair::AF => self.get_af(),
        }
    }

    fn set_stack_pair(&mut self, r: StackPair, v: u16)
        requires
            old(self).wf(),
        ensures
            final(self)@ == old(self)@.set_stack_pair(r, v),
            final(self).wf(),
    {
        match r {
            StackPair::BC => self.set_bc(v),
            StackPair::DE => self.set_de(v),
            StackPair::HL => self.set_hl(v),
            StackPair::AF => self.set_af(v),
        }
    }

    /// An ALU result: its value to `dst`, its flags to F.
    fn store(&mut self, dst: Reg8, r: operations::Result)
        ensures
            final(self)@ == old(self)@.store(dst, r),
            final(self).wf(),
    {
        self.set_reg8(dst, r.value);
        self.apply(r);
    }

    fn rotated_a(&mut self, r: operations::Result)
        ensures
            final(self)@ == old(self)@.rotated_a(r),
            final(self).wf(),
    {
        self.registers.a = r.value;
        self.apply_flags(Some(false), Some(false), Some(false), r.carry);
    }

    fn condition(&self, c: Cond) -> (r: bool)
        ensures
            r == self@.condition(c),
    {
        match c {
            Cond::NZ => !self.get_flag(Flag::Z),
            Cond::Z => self.get_flag(Flag::Z),
            Cond::NC => !self.get_flag(Flag::C),
            Cond::C => self.get_flag(Flag::C),
        }
    }

    fn indirect_addr(&self, ind: Indirect) -> (r: u16)
        ensures
            r == self@.indirect_addr(ind),
    {
        match ind {
            Indirect::BC => self.get_bc(),
            Indirect::DE => self.get_de(),
            _ => self.get_hl(),
        }
    }

    fn step_hl(&mut self, ind: Indirect)
        ensures
            final(self)@ == old(self)@.step_hl(ind),
    {
        match ind {
            Indirect::HLInc => {
                let hl = self.get_hl();
                self.set_hl(hl.wrapping_add(1));
            },
            Indirect::HLDec => {
                let hl = self.get_hl();
                self.set_hl(hl.wrapping_sub(1));
            },
            _ => {},
        }
    }

    /// The interrupts both requested (IF) and enabled (IE).
    fn pending(&self) -> (r: u8)
        ensures
            r == self@.pending(),
    {
        self.memory.read8(IE_ADDR) & self.memory.read8(IF_ADDR) & 0x1F
    }

    /// Raises the request bit of `i` in IF.
    pub fn request_interrupt(&mut self, i: Interrupt)
        ensures
            final(self)@ == old(self)@.write8(
                IF_ADDR,
                old(self)@.read8(IF_ADDR) | interrupt_mask(i),
            ),
    {
        let mask: u8 = match i {
            Interrupt::VBlank => 0x01,
            Interrupt::LcdStat => 0x02,
            Interrupt::Timer => 0x04,
            Interrupt::Serial => 0x08,
            Interrupt::Joypad => 0x10,
        };
        let flags = self.memory.read8(IF_ADDR);
        self.memory.write8(IF_ADDR, flags | mask);
    }

    /// Runs the instruction of the prefixed page that `opcode` selects;
    /// returns its M-cycles, the prefix included.
    pub fn execute_cb_instruction(&mut self, opcode: u8) -> (r: u8)
        requires
            old(self).wf(),
        ensures
            final(self).wf(),
            (final(self)@, r) == old(self)@.run_cb(decode_cb_spec(opcode)),
            r > 0,
    {
        match decode_cb(opcode) {
            CbInstr::Shift(op, r) => {
                let v = self.reg8(r);
                let res = shift(op, v, self.registers.f);
                self.store(r, res);
                if r == Reg8::HLInd { 4 } else { 2 }
            },
            CbInstr::TestBit(n, r) => {
                let v = self.reg8(r);
                let res = operations::bit(n, v);
                self.apply(res);
                if r == Reg8::HLInd { 3 } else { 2 }
            },
            CbInstr::ResBit(n, r) => {
                let v = self.reg8(r);
                self.set_reg8(r, operations::reset_bit(n, v));
                if r == Reg8::HLInd { 4 } else { 2 }
            },
            CbInstr::SetBit(n, r) => {
                let v = self.reg8(r);
                self.set_reg8(r, operations::set_bit(n, v));
                if r == Reg8::HLInd { 4 } else { 2 }
            },
        }
    }

    /// Runs one instruction of the unprefixed page, PC already past its
    /// opcode; returns its M-cycles.
    fn run(&mut self, i: Instr) -> (r: u8)
        requires
            old(self).wf(),
            i != Instr::Illegal,
        ensures
            final(self).wf(),
            (final(self)@, r) == old(self)@.run(i),
            r > 0,
    {
        proof {
            reveal(State::run);
        }
        match i {
            Instr::Nop | Instr::Stop | Instr::Halt | Instr::Di | Instr::Ei => self.run_misc(i),
            Instr::Ld(..)
            | Instr::LdImm(..)
            | Instr::LdImm16(..)
            | Instr::StoreA(..)
            | Instr::LoadA(..)
            | Instr::StoreSp => self.run_load(i),
            Instr::Inc16(..)
            | Instr::Dec16(..)
            | Instr::Inc(..)
            | Instr::Dec(..)
            | Instr::AddHl(..) => self.run_inc_dec(i),
            Instr::Rlca
            | Instr::Rrca
            | Instr::Rla
            | Instr::Rra
            | Instr::Daa
            | Instr::Cpl
            | Instr::Scf
            | Instr::Ccf => self.run_accumulator(i),
            Instr::Jr
            | Instr::JrIf(..)
            | Instr::Jp
            | Instr::JpIf(..)
            | Instr::JpHl => self.run_jump(i),
            Instr::Call
            | Instr::CallIf(..)
            | Instr::Ret
            | Instr::RetIf(..)
            | Instr::Reti
            | Instr::Rst(..) => self.run_call(i),
            Instr::Push(..) | Instr::Pop(..) => self.run_stack(i),
            Instr::Alu(..) | Instr::AluImm(..) => self.run_alu(i),
            Instr::StoreHigh
            | Instr::LoadHigh
            | Instr::StoreHighC
            | Instr::LoadHighC
            | Instr::StoreAbs
            | Instr::LoadAbs => self.run_memory(i),
            Instr::AddSp | Instr::LdHlSp | Instr::LdSpHl => self.run_sp(i),
            Instr::Prefix => {
                let op = self.next_instruction();
                self.execute_cb_instruction(op)
            },
            Instr::Illegal => 0,
        }
    }

    /// Nop, STOP, HALT and the interrupt-enable instructions.
    fn run_misc(&mut self, i: Instr) -> (r: u8)
        requires
            old(self).wf(),
            i is Nop || i is Stop || i is Halt || i is Di || i is Ei,
        ensures
            final(self).wf(),
            (final(self)@, r) == old(self)@.run(i),
            r > 0,
    {
        proof {
            reveal(State::run);
        }
        match i {
            Instr::Nop => 1,
            Instr::Stop => {
                self.next_instruction();
                self.stopped = true;
                1
            },
            Instr::Halt => {
                if self.ime || self.pending() == 0 {
                    self.halted = true;
                } else {
                    self.halt_bug = true;
                }
                1
            },
            Instr::Di => {
                self.ime = false;
                self.ime_pending = false;
                1
            },
            Instr::Ei => {
                self.ime_pending = true;
                1
            },
            _ => 0,
        }
    }

    /// The 8- and 16-bit loads between registers, immediates and memory.
    fn run_load(&mut self, i: Instr) -> (r: u8)
        requires
            old(self).wf(),
            i is Ld || i is LdImm || i is LdImm16 || i is StoreA || i is LoadA || i is StoreSp,
        ensures
            final(self).wf(),
            (final(self)@, r) == old(self)@.run(i),
            r > 0,
    {
        proof {
            reveal(State::run);
        }
        match i {
            Instr::Ld(dst, src) => {
                let v = self.reg8(src);
                self.set_reg8(dst, v);
                if dst == Reg8::HLInd || src == Reg8::HLInd { 2 } else { 1 }
            },
            Instr::LdImm(r) => {
                let v = self.next_instruction();
                self.set_reg8(r, v);
                if r == Reg8::HLInd { 3 } else { 2 }
            },
            Instr::LdImm16(r) => {
                let v = self.read_word();
                self.set_reg16(r, v);
                3
            },
            Instr::StoreA(ind) => {
                let addr = self.indirect_addr(ind);
                let a = self.registers.a;
                self.memory.write8(addr, a);
                self.step_hl(ind);
                2
            },
            Instr::LoadA(ind) => {
                let addr = self.indirect_addr(ind);
                self.registers.a = self.memory.read8(addr);
                self.step_hl(ind);
                2
            },
            Instr::StoreSp => {
                let addr = self.read_word();
                let sp = self.registers.sp;
                self.memory.write16(addr, sp);
                5
            },
            _ => 0,
        }
    }

    /// Increments, decrements and `ADD HL,rr`.
    fn run_inc_dec(&mut self, i: Instr) -> (r: u8)
        requires
            old(self).wf(),
            i is Inc16 || i is Dec16 || i is Inc || i is Dec || i is AddHl,
        ensures
            final(self).wf(),
            (final(self)@, r) == old(self)@.run(i),
            r > 0,
    {
        proof {
            reveal(State::run);
        }
        match i {
            Instr::Inc16(r) => {
                let v = self.reg16(r);
                self.set_reg16(r, v.wrapping_add(1));
                2
            },
            Instr::Dec16(r) => {
                let v = self.reg16(r);
                self.set_reg16(r, v.wrapping_sub(1));
                2
            },
            Instr::Inc(r) => {
                let v = self.reg8(r);
                self.store(r, operations::inc(v));
                if r == Reg8::HLInd { 3 } else { 1 }
            },
            Instr::Dec(r) => {
                let v = self.reg8(r);
                self.store(r, operations::dec(v));
                if r == Reg8::HLInd { 3 } else { 1 }
            },
            Instr::AddHl(r) => {
                let res = operations::add16(self.get_hl(), self.reg16(r));
                self.set_hl(res.value);
                self.apply16(res);
                2
            },
            _ => 0,
        }
    }

    /// The rotates of A, DAA, CPL and the carry-flag instructions.
    fn run_accumulator(&mut self, i: Instr) -> (r: u8)
        requires
            old(self).wf(),
            i is Rlca || i is Rrca || i is Rla || i is Rra || i is Daa || i is Cpl || i is Scf
                || i is Ccf,
        ensures
            final(self).wf(),
            (final(self)@, r) == old(self)@.run(i),
            r > 0,
    {
        proof {
            reveal(State::run);
        }
        match i {
            Instr::Rlca => {
                let res = operations::rlc(self.registers.a);
                self.rotated_a(res);
                1
            },
            Instr::Rrca => {
                let res = operations::rrc(self.registers.a);
                self.rotated_a(res);
                1
            },
            Instr::Rla => {
                let res = operations::rl(self.registers.a, self.registers.f);
                self.rotated_a(res);
                1
            },
            Instr::Rra => {
                let res = operations::rr(self.registers.a, self.registers.f);
                self.rotated_a(res);
                1
            },
            Instr::Daa => {
                let n = self.get_flag(Flag::N);
                let h = self.get_flag(Flag::H);
                let c = self.get_flag(Flag::C);
                let res = operations::daa(self.registers.a, n, h, c);
                self.store(Reg8::A, res);
                1
            },
            Instr::Cpl => {
                self.registers.a = !self.registers.a;
                self.apply_flags(None, Some(true), Some(true), None);
                1
            },
            Instr::Scf => {
                self.apply_flags(None, Some(false), Some(false), Some(true));
                1
            },
            Instr::Ccf => {
                let c = self.get_flag(Flag::C);
                self.apply_flags(None, Some(false), Some(false), Some(!c));
                1
            },
            _ => 0,
        }
    }

    /// The relative and absolute jumps.
    fn run_jump(&mut self, i: Instr) -> (r: u8)
        requires
            old(self).wf(),
            i is Jr || i is JrIf || i is Jp || i is JpIf || i is JpHl,
        ensures
            final(self).wf(),
            (final(self)@, r) == old(self)@.run(i),
            r > 0,
    {
        proof {
            reveal(State::run);
        }
        match i {
            Instr::Jr => {
                let e = self.next_instruction();
                self.registers.pc = relative_target(self.registers.pc, e);
                3
            },
            Instr::JrIf(c) => {
                let e = self.next_instruction();
                if self.condition(c) {
                    self.registers.pc = relative_target(self.registers.pc, e);
                    3
                } else {
                    2
                }
            },
            Instr::Jp => {
                let addr = self.read_word();
                self.registers.pc = addr;
                4
            },
            Instr::JpIf(c) => {
                let addr = self.read_word();
                if self.condition(c) {
                    self.registers.pc = addr;
                    4
                } else {
                    3
                }
            },
            Instr::JpHl => {
                self.registers.pc = self.get_hl();
                1
            },
            _ => 0,
        }
    }

    /// Calls, returns and restarts.
    fn run_call(&mut self, i: Instr) -> (r: u8)
        requires
            old(self).wf(),
            i is Call || i is CallIf || i is Ret || i is RetIf || i is Reti || i is Rst,
        ensures
            final(self).wf(),
            (final(self)@, r) == old(self)@.run(i),
            r > 0,
    {
        proof {
            reveal(State::run);
        }
        match i {
            Instr::Call => {
                let addr = self.read_word();
                let pc = self.registers.pc;
                self.push(pc);
                self.registers.pc = addr;
                6
            },
            Instr::CallIf(c) => {
                let addr = self.read_word();
                if self.condition(c) {
                    let pc = self.registers.pc;
                    self.push(pc);
                    self.registers.pc = addr;
                    6
                } else {
                    3
                }
            },
            Instr::Ret => {
                self.registers.pc = self.pop();
                4
            },
            Instr::RetIf(c) => {
                if self.condition(c) {
                    self.registers.pc = self.pop();
                    5
                } else {
                    2
                }
            },
            Instr::Reti => {
                self.registers.pc = self.pop();
                self.ime = true;
                4
            },
            Instr::Rst(v) => {
                let pc = self.registers.pc;
                self.push(pc);
                self.registers.pc = v as u16;
                4
            },
            _ => 0,
        }
    }

    /// PUSH and POP.
    fn run_stack(&mut self, i: Instr) -> (r: u8)
        requires
            old(self).wf(),
            i is Push || i is Pop,
        ensures
            final(self).wf(),
            (final(self)@, r) == old(self)@.run(i),
            r > 0,
    {
        proof {
            reveal(State::run);
        }
        match i {
            Instr::Push(r) => {
                let v = self.stack_pair(r);
                self.push(v);
                4
            },
            Instr::Pop(r) => {
                let v = self.pop();
                self.set_stack_pair(r, v);
                3
            },
            _ => 0,
        }
    }

    /// The accumulator operations on a register, `(HL)` or an immediate.
    fn run_alu(&mut self, i: Instr) -> (r: u8)
        requires
            old(self).wf(),
            i is Alu || i is AluImm,
        ensures
            final(self).wf(),
            (final(self)@, r) == old(self)@.run(i),
            r > 0,
    {
        proof {
            reveal(State::run);
        }
        match i {
            Instr::Alu(op, r) => {
                let v = self.reg8(r);
                let res = alu(op, self.registers.a, v, self.get_flag(Flag::C));
                self.store(Reg8::A, res);
                if r == Reg8::HLInd { 2 } else { 1 }
            },
            Instr::AluImm(op) => {
                let v = self.next_instruction();
                let res = alu(op, self.registers.a, v, self.get_flag(Flag::C));
                self.store(Reg8::A, res);
                2
            },
            _ => 0,
        }
    }

    /// Loads and stores of A through the high page and absolute addresses.
    fn run_memory(&mut self, i: Instr) -> (r: u8)
        requires
            old(self).wf(),
            i is StoreHigh || i is LoadHigh || i is StoreHighC || i is LoadHighC || i is StoreAbs
                || i is LoadAbs,
        ensures
            final(self).wf(),
            (final(self)@, r) == old(self)@.run(i),
            r > 0,
    {
        proof {
            reveal(State::run);
        }
        match i {
            Instr::StoreHigh => {
                let n = self.next_instruction();
                let a = self.registers.a;
                self.memory.write8(0xFF00 + n as u16, a);
                3
            },
            Instr::LoadHigh => {
                let n = self.next_instruction();
                self.registers.a = self.memory.read8(0xFF00 + n as u16);
                3
            },
            Instr::StoreHighC => {
                let a = self.registers.a;
                self.memory.write8(0xFF00 + self.registers.c as u16, a);
                2
            },
            Instr::LoadHighC => {
                self.registers.a = self.memory.read8(0xFF00 + self.registers.c as u16);
                2
            },
            Instr::StoreAbs => {
                let addr = self.read_word();
                let a = self.registers.a;
                self.memory.write8(addr, a);
                4
            },
            Instr::LoadAbs => {
                let addr = self.read_word();
                self.registers.a = self.memory.read8(addr);
                4
            },
            _ => 0,
        }
    }

    /// The 16-bit stack-pointer arithmetic and `LD SP,HL`.
    fn run_sp(&mut self, i: Instr) -> (r: u8)
        requires
            old(self).wf(),
            i is AddSp || i is LdHlSp || i is LdSpHl,
        ensures
            final(self).wf(),
            (final(self)@, r) == old(self)@.run(i),
            r > 0,
    {
        proof {
            reveal(State::run);
        }
        match i {
            Instr::AddSp => {
                let e = self.next_instruction();
                let res = operations::add_sp(self.registers.sp, e);
                self.registers.sp = res.value;
                self.apply16(res);
                4
            },
            Instr::LdHlSp => {
                let e = self.next_instruction();
                let res = operations::add_sp(self.registers.sp, e);
                self.set_hl(res.value);
                self.apply16(res);
                3
            },
            Instr::LdSpHl => {
                self.registers.sp = self.get_hl();
                2
            },
            _ => 0,
        }
    }

    /// Fetches, decodes and runs one instruction; returns its M-cycles, or
    /// the error for an undefined opcode (PC then stands past it).
    pub fn execute(&mut self) -> (r: Result<u8, CpuError>)
        requires
            old(self).wf(),
        ensures
            final(self).wf(),
            (final(self)@, r) == old(self)@.execute(),
            r is Ok ==> r->Ok_0 > 0,
    {
        let pc = self.registers.pc;
        let enable_ime = self.ime_pending;
        self.ime_pending = false;
        let op = if self.halt_bug {
            self.halt_bug = false;
            self.memory.read8(pc)
        } else {
            self.next_instruction()
        };
        let i = decode(op);
        if i == Instr::Illegal {
            return Err(CpuError::IllegalOpcode { opcode: op, pc });
        }
        let cycles = self.run(i);
        if enable_ime && i != Instr::Di {
            self.ime = true;
        }
        Ok(cycles)
    }

    /// Enters the handler of the lowest pending interrupt.
    fn service(&mut self)
        requires
            old(self).wf(),
        ensures
            final(self).wf(),
            final(self)@ == old(self)@.service(),
    {
        let n = lowest_bit(self.pending());
        let flags = self.memory.read8(IF_ADDR);
        self.memory.write8(IF_ADDR, flags & !(1u8 << n));
        self.ime = false;
        let pc = self.registers.pc;
        self.push(pc);
        self.registers.pc = 0x40 + 8 * n as u16;
    }

    /// One step of the CPU: interrupt servicing at entry, then one
    /// instruction, unless the CPU is stopped or halted with nothing pending.
    /// Returns the M-cycles taken.
    pub fn step(&mut self) -> (r: Result<u32, CpuError>)
        requires
            old(self).wf(),
        ensures
            final(self).wf(),
            (final(self)@, r) == old(self)@.step(),
            r is Ok ==> r->Ok_0 > 0,
    {
        if self.stopped && self.memory.read8(IF_ADDR) & 0x10 != 0 {
            self.stopped = false;
        }
        if self.stopped || (self.halted && self.pending() == 0) {
            return Ok(1);
        }
        let woke = self.halted;
        self.halted = false;
        if self.ime && self.pending() != 0 {
            self.service();
            let extra: u32 = if woke { 6 } else { 5 };
            match self.execute() {
                Ok(c) => Ok(c as u32 + extra),
                Err(e) => Err(e),
            }
        } else {
            match self.execute() {
                Ok(c) => Ok(c as u32),
                Err(e) => Err(e),
            }
        }
    }
}

} // verus!
