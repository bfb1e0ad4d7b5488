//! Laws that relate several operations of the ALU and of the machine.
use vstd::prelude::*;

use crate::instruction::{decode_spec, Instr, StackPair};
use crate::gb::Flag;
use crate::model::{lemma_flags_byte_reads, pair, relative, State};
use crate::operations::{add_sp_result, dec_result, inc_result, rlc_result, rrc_result, sign_extend, Result};

verus! {

/// `rlc` applied `n` times.
pub open spec fn rlc_times(v: u8, n: nat) -> u8
    decreases n,
{
    if n == 0 {
        v
    } else {
        rlc_times(rlc_result(v).value, (n - 1) as nat)
    }
}

/// `rrc` applied `n` times.
pub open spec fn rrc_times(v: u8, n: nat) -> u8
    decreases n,
{
    if n == 0 {
        v
    } else {
        rrc_times(rrc_result(v).value, (n - 1) as nat)
    }
}

spec fn rotl(v: u8) -> u8 {
    (v << 1) | (v >> 7)
}

spec fn rotr(v: u8) -> u8 {
    (v >> 1) | (v << 7)
}

/// Decrementing the result of an increment gives the value back, and so
/// does incrementing the result of a decrement; the flags of the pair are
/// those of the second operation.
pub proof fn lemma_inc_dec_round_trip(v: u8)
    ensures
        inc_result(dec_result(v).value) == (Result {
            value: v,
            zero: Some(v == 0),
            add_sub: Some(false),
            half_carry: Some(v % 16 == 0),
            carry: None,
        }),
        dec_result(inc_result(v).value) == (Result {
            value: v,
            zero: Some(v == 0),
            add_sub: Some(true),
            half_carry: Some(v % 16 == 15),
            carry: None,
        }),
{
}

/// Eight left rotations, or eight right rotations, give the byte back.
pub proof fn lemma_rotate_eight_times(v: u8)
    ensures
        rlc_times(v, 8) == v,
        rrc_times(v, 8) == v,
{
    reveal_with_fuel(rlc_times, 9);
    reveal_with_fuel(rrc_times, 9);
    assert(rotl(rotl(rotl(rotl(rotl(rotl(rotl(rotl(v)))))))) == v) by (bit_vector);
    assert(rotr(rotr(rotr(rotr(rotr(rotr(rotr(rotr(v)))))))) == v) by (bit_vector);
}

/// `JR e8` lands at the address after its two bytes plus the sign-extended
/// offset, modulo 2^16, and takes three M-cycles.
pub proof fn lemma_jr_target(s: State)
    requires
        s.wf(),
        !s.halt_bug,
        s.read8(s.regs.pc) == 0x18,
    ensures
        s.execute().0.regs.pc == (s.regs.pc + 2 + sign_extend(s.read8(s.regs.pc.wrapping_add(1))))
            % 65536,
        s.execute().1 == Ok::<u8, crate::gb::CpuError>(3),
{
    assert(decode_spec(0x18) == Instr::Jr);
    let pc = s.regs.pc;
    let b = s.read8(pc.wrapping_add(1));
    let s1 = State { halt_bug: false, ime_pending: false, ..s }.skip(1);
    lemma_jr_run(s1);
    assert(s1.regs.pc == pc.wrapping_add(1));
    assert(s1.skip(1).regs.pc == (pc + 2) % 65536);
    lemma_wrap_offset(pc as int, sign_extend(b));
}

/// `JR` adds the sign-extended byte at PC to the address just past it.
proof fn lemma_jr_run(s: State)
    ensures
        s.run(Instr::Jr).0.regs.pc == relative(s.skip(1).regs.pc, s.imm8()),
        s.run(Instr::Jr).1 == 3,
{
    reveal(State::run);
}

proof fn lemma_wrap_offset(pc: int, e: int)
    requires
        -128 <= e < 128,
        0 <= pc < 65536,
    ensures
        ((pc + 2) % 65536 + e) % 65536 == (pc + 2 + e) % 65536,
{
    vstd::arithmetic::div_mod::lemma_add_mod_noop(pc + 2, e, 65536);
    vstd::arithmetic::div_mod::lemma_add_mod_noop((pc + 2) % 65536, e, 65536);
    vstd::arithmetic::div_mod::lemma_mod_twice(pc + 2, 65536);
}

/// `ADD SP,e8` adds the sign-extended offset to SP; Z and N are cleared,
/// and H and C come from the unsigned sum of the low byte of SP and the offset.
pub proof fn lemma_add_sp_instruction(s: State)
    requires
        s.wf(),
        !s.halt_bug,
        s.read8(s.regs.pc) == 0xE8,
    ensures
        s.execute().0.regs.sp == (s.regs.sp + sign_extend(s.read8(s.regs.pc.wrapping_add(1))))
            % 65536,
        !s.execute().0.flag(Flag::Z),
        !s.execute().0.flag(Flag::N),
        s.execute().0.flag(Flag::H) == (s.regs.sp % 16 + s.read8(s.regs.pc.wrapping_add(1)) % 16
            > 15),
        s.execute().0.flag(Flag::C) == (s.regs.sp % 256 + s.read8(s.regs.pc.wrapping_add(1))
            > 255),
        s.execute().1 == Ok::<u8, crate::gb::CpuError>(4),
{
    assert(decode_spec(0xE8) == Instr::AddSp);
    let e = s.read8(s.regs.pc.wrapping_add(1));
    let s1 = State { halt_bug: false, ime_pending: false, ..s }.skip(1);
    assert(s1.imm8() == e);
    lemma_add_sp_run(s1);
    let res = add_sp_result(s.regs.sp, e);
    lemma_flags_byte_reads(false, false, res.half_carry->Some_0, res.carry->Some_0);
}

/// `ADD SP,e8` writes the ALU's sum to SP and its flags to F.
proof fn lemma_add_sp_run(s: State)
    ensures
        s.run(Instr::AddSp).0.regs.sp == add_sp_result(s.regs.sp, s.imm8()).value,
        s.run(Instr::AddSp).0.regs.f == crate::model::flags_byte(
            false,
            false,
            add_sp_result(s.regs.sp, s.imm8()).half_carry->Some_0,
            add_sp_result(s.regs.sp, s.imm8()).carry->Some_0,
        ),
        s.run(Instr::AddSp).1 == 4,
{
    reveal(State::run);
}

/// A pop after a push returns the pushed word and puts SP back.
pub proof fn lemma_push_pop(s: State, v: u16)
    requires
        s.wf(),
    ensures
        s.push(v).top() == v,
        s.push(v).popped().regs == s.regs,
{
}

/// `LD (a16),SP` leaves SP at the address it names: the word read back
/// from there is the SP that was stored.
pub proof fn lemma_store_sp_read_back(s: State)
    requires
        s.wf(),
        !s.halt_bug,
        s.read8(s.regs.pc) == 0x08,
    ensures
        s.execute().0.read16(s.read16(s.regs.pc.wrapping_add(1))) == s.regs.sp,
{
    reveal(State::run);
    assert(decode_spec(0x08) == Instr::StoreSp);
}

/// `PUSH AF` then `POP AF` keeps A, keeps F but for its low nibble, which
/// reads back as zero, and puts SP back; the two bytes that the push writes
/// must not hold the second opcode.
pub proof fn lemma_push_pop_af(s: State)
    requires
        s.wf(),
        !s.halt_bug,
        s.read8(s.regs.pc) == 0xF5,
        s.read8(s.regs.pc.wrapping_add(1)) == 0xF1,
        s.regs.sp.wrapping_sub(1) != s.regs.pc.wrapping_add(1),
        s.regs.sp.wrapping_sub(2) != s.regs.pc.wrapping_add(1),
    ensures
        s.execute().0.execute().0.regs.a == s.regs.a,
        s.execute().0.execute().0.regs.f == s.regs.f & 0xF0,
        s.execute().0.execute().0.regs.sp == s.regs.sp,
{
    reveal(State::run);
    assert(decode_spec(0xF5) == Instr::Push(StackPair::AF));
    assert(decode_spec(0xF1) == Instr::Pop(StackPair::AF));
    let s1 = s.execute().0;
    assert(s1.read8(s1.regs.pc) == 0xF1);
    assert(s1.top() == pair(s.regs.a, s.regs.f));
}

} // verus!
