//! The arithmetic-logic unit: pure functions that compute a value together
//! with the flag updates that the instruction applies to F.
use vstd::prelude::*;

verus! {

/// The outcome of an 8-bit ALU operation. A flag that is `None` is left as
/// it was by the instruction; a flag that is `Some` overwrites the bit in F.
#[derive(Copy, Clone, Debug, PartialEq, Eq)]
pub struct Result {
    pub value: u8,
    pub zero: Option<bool>,
    pub add_sub: Option<bool>,
    pub half_carry: Option<bool>,
    pub carry: Option<bool>,
}

/// The outcome of a 16-bit ALU operation, with the same flag convention.
#[derive(Copy, Clone, Debug, PartialEq, Eq)]
pub struct Result16 {
    pub value: u16,
    pub zero: Option<bool>,
    pub add_sub: Option<bool>,
    pub half_carry: Option<bool>,
    pub carry: Option<bool>,
}

/// 1 when the incoming carry is set, 0 otherwise.
pub open spec fn carry_in(c: bool) -> int {
    if c { 1 } else { 0 }
}

/// The two's-complement value of a byte read as a signed offset.
pub open spec fn sign_extend(e: u8) -> int {
    if e < 128 { e as int } else { e as int - 256 }
}

/// An 8-bit result whose four flags are all written.
pub open spec fn full(value: u8, z: bool, n: bool, h: bool, c: bool) -> Result {
    Result { value, zero: Some(z), add_sub: Some(n), half_carry: Some(h), carry: Some(c) }
}

pub open spec fn add_result(a: u8, b: u8) -> Result {
    full(((a + b) % 256) as u8, (a + b) % 256 == 0, false, a % 16 + b % 16 > 15, a + b > 255)
}

pub open spec fn adc_result(a: u8, b: u8, c: bool) -> Result {
    let s = a + b + carry_in(c);
    full((s % 256) as u8, s % 256 == 0, false, a % 16 + b % 16 + carry_in(c) > 15, s > 255)
}

pub open spec fn sub_result(a: u8, b: u8) -> Result {
    full(((a - b) % 256) as u8, a == b, true, a % 16 < b % 16, a < b)
}

pub open spec fn sbc_result(a: u8, b: u8, c: bool) -> Result {
    let d = a - b - carry_in(c);
    full((d % 256) as u8, d % 256 == 0, true, a % 16 < b % 16 + carry_in(c), a < b + carry_in(c))
}

pub open spec fn and_result(a: u8, b: u8) -> Result {
    full(a & b, a & b == 0, false, true, false)
}

pub open spec fn or_result(a: u8, b: u8) -> Result {
    full(a | b, a | b == 0, false, false, false)
}

pub open spec fn xor_result(a: u8, b: u8) -> Result {
    full(a ^ b, a ^ b == 0, false, false, false)
}

/// A comparison: the flags of `a - b`, with `a` kept as the value.
pub open spec fn cp_result(a: u8, b: u8) -> Result {
    full(a, a == b, true, a % 16 < b % 16, a < b)
}

/// Increment; the carry flag is left alone.
pub open spec fn inc_result(v: u8) -> Result {
    Result {
        value: ((v + 1) % 256) as u8,
        zero: Some(v == 255),
        add_sub: Some(false),
        half_carry: Some(v % 16 == 15),
        carry: None,
    }
}

/// Decrement; the carry flag is left alone.
pub open spec fn dec_result(v: u8) -> Result {
    Result {
        value: ((v - 1) % 256) as u8,
        zero: Some(v == 1),
        add_sub: Some(true),
        half_carry: Some(v % 16 == 0),
        carry: None,
    }
}

/// `ADD SP,e8` and `LD HL,SP+e8`: a signed offset is added, while the
/// carries come from the unsigned sum of the low byte of SP and the offset.
pub open spec fn add_sp_result(sp: u16, e: u8) -> Result16 {
    Result16 {
        value: ((sp + sign_extend(e)) % 65536) as u16,
        zero: Some(false),
        add_sub: Some(false),
        half_carry: Some(sp % 16 + e % 16 > 15),
        carry: Some(sp % 256 + e > 255),
    }
}

/// `ADD HL,rr`: the zero flag is left alone.
pub open spec fn add16_result(hl: u16, rr: u16) -> Result16 {
    Result16 {
        value: ((hl + rr) % 65536) as u16,
        zero: None,
        add_sub: Some(false),
        half_carry: Some(hl % 4096 + rr % 4096 > 4095),
        carry: Some(hl + rr > 65535),
    }
}

/// Rotates and shifts write all four flags; N and H are cleared.
pub open spec fn shifted(value: u8, c: bool) -> Result {
    full(value, value == 0, false, false, c)
}

pub open spec fn rlc_result(v: u8) -> Result {
    shifted((v << 1) | (v >> 7), v >= 128)
}

pub open spec fn rrc_result(v: u8) -> Result {
    shifted((v >> 1) | (v << 7), v % 2 == 1)
}

/// Whether the carry bit (bit 4) of a flag byte is set.
pub open spec fn carry_of(flags: u8) -> bool {
    flags & 0x10 != 0
}

pub open spec fn rl_result(v: u8, flags: u8) -> Result {
    shifted((v << 1) | (if carry_of(flags) { 1u8 } else { 0u8 }), v >= 128)
}

pub open spec fn rr_result(v: u8, flags: u8) -> Result {
    shifted((v >> 1) | (if carry_of(flags) { 0x80u8 } else { 0u8 }), v % 2 == 1)
}

pub open spec fn sla_result(v: u8) -> Result {
    shifted(v << 1, v >= 128)
}

pub open spec fn sra_result(v: u8) -> Result {
    shifted((v >> 1) | (v & 0x80), v % 2 == 1)
}

pub open spec fn srl_result(v: u8) -> Result {
    shifted(v >> 1, v % 2 == 1)
}

pub open spec fn swap_result(v: u8) -> Result {
    shifted((v << 4) | (v >> 4), false)
}

/// `BIT n`: Z is the complement of bit `n`; the value is unchanged and C is left alone.
pub open spec fn bit_result(n: u8, v: u8) -> Result {
    Result {
        value: v,
        zero: Some((v >> n) & 1 == 0),
        add_sub: Some(false),
        half_carry: Some(true),
        carry: None,
    }
}

/// Decimal adjustment of A after a BCD addition (`n` clear) or subtraction
/// (`n` set). N is left alone.
pub open spec fn daa_result(a: u8, n: bool, h: bool, c: bool) -> Result {
    if !n {
        let hi = c || a > 0x99;
        let lo = h || a % 16 > 9;
        let v = ((a + (if hi { 0x60int } else { 0 }) + (if lo { 6int } else { 0 })) % 256) as u8;
        Result {
            value: v,
            zero: Some(v == 0),
            add_sub: None,
            half_carry: Some(false),
            carry: Some(hi),
        }
    } else {
        let v = ((a - (if c { 0x60int } else { 0 }) - (if h { 6int } else { 0 })) % 256) as u8;
        Result {
            value: v,
            zero: Some(v == 0),
            add_sub: None,
            half_carry: Some(false),
            carry: Some(c),
        }
    }
}

/// Carry out of bit 3 of `a + b + carry`.
fn half_carry_sum(a: u8, b: u8, carry: bool) -> (r: bool)
    ensures
        r == (a % 16 + b % 16 + carry_in(carry) > 15),
{
    a % 16 + b % 16 + (if carry { 1u8 } else { 0u8 }) > 15
}

/// Borrow from bit 4 in `a - b - carry`.
fn half_carry_sub(a: u8, b: u8, carry: bool) -> (r: bool)
    ensures
        r == (a % 16 < b % 16 + carry_in(carry)),
{
    a % 16 < b % 16 + (if carry { 1u8 } else { 0u8 })
}

pub fn add(a: u8, b: u8) -> (r: Result)
    ensures
        r == add_result(a, b),
{
    let value = a.wrapping_add(b);
    Result {
        value,
        zero: Some(value == 0),
        add_sub: Some(false),
        half_carry: Some(half_carry_sum(a, b, false)),
        carry: Some(a as u16 + b as u16 > 0xFF),
    }
}

pub fn adc(a: u8, b: u8, carry: bool) -> (r: Result)
    ensures
        r == adc_result(a, b, carry),
{
    let sum: u16 = a as u16 + b as u16 + (if carry { 1u16 } else { 0u16 });
    let value = (sum % 256) as u8;
    Result {
        value,
        zero: Some(value == 0),
        add_sub: Some(false),
        half_carry: Some(half_carry_sum(a, b, carry)),
        carry: Some(sum > 0xFF),
    }
}

pub fn sub(a: u8, b: u8) -> (r: Result)
    ensures
        r == sub_result(a, b),
{
    let value = a.wrapping_sub(b);
    Result {
        value,
        zero: Some(a == b),
        add_sub: Some(true),
        half_carry: Some(half_carry_sub(a, b, false)),
        carry: Some(a < b),
    }
}

pub fn sbc(a: u8, b: u8, carry: bool) -> (r: Result)
    ensures
        r == sbc_result(a, b, carry),
{
    let subtrahend: u16 = b as u16 + (if carry { 1u16 } else { 0u16 });
    let value = ((a as u16 + 256 - subtrahend) % 256) as u8;
    Result {
        value,
        zero: Some(value == 0),
        add_sub: Some(true),
        half_carry: Some(half_carry_sub(a, b, carry)),
        carry: Some((a as u16) < subtrahend),
    }
}

pub fn and(a: u8, b: u8) -> (r: Result)
    ensures
        r == and_result(a, b),
{
    let value = a & b;
    Result {
        value,
        zero: Some(value == 0),
        add_sub: Some(false),
        half_carry: Some(true),
        carry: Some(false),
    }
}

pub fn or(a: u8, b: u8) -> (r: Result)
    ensures
        r == or_result(a, b),
{
    let value = a | b;
    Result {
        value,
        zero: Some(value == 0),
        add_sub: Some(false),
        half_carry: Some(false),
        carry: Some(false),
    }
}

pub fn xor(a: u8, b: u8) -> (r: Result)
    ensures
        r == xor_result(a, b),
{
    let value = a ^ b;
    Result {
        value,
        zero: Some(value == 0),
        add_sub: Some(false),
        half_carry: Some(false),
        carry: Some(false),
    }
}

pub fn cp(a: u8, b: u8) -> (r: Result)
    ensures
        r == cp_result(a, b),
{
    Result {
        value: a,
        zero: Some(a == b),
        add_sub: Some(true),
        half_carry: Some(half_carry_sub(a, b, false)),
        carry: Some(a < b),
    }
}

pub fn inc(value: u8) -> (r: Result)
    ensures
        r == inc_result(value),
{
    Result {
        value: value.wrapping_add(1),
        zero: Some(value == 0xFF),
        add_sub: Some(false),
        half_carry: Some(value % 16 == 15),
        carry: None,
    }
}

pub fn dec(value: u8) -> (r: Result)
    ensures
        r == dec_result(value),
{
    Result {
        value: value.wrapping_sub(1),
        zero: Some(value == 1),
        add_sub: Some(true),
        half_carry: Some(value % 16 == 0),
        carry: None,
    }
}

pub fn add_sp(value: u16, offset: u8) -> (r: Result16)
    ensures
        r == add_sp_result(value, offset),
{
    let result = if offset < 0x80 {
        value.wrapping_add(offset as u16)
    } else {
        value.wrapping_sub(256 - offset as u16)
    };
    Result16 {
        value: result,
        zero: Some(false),
        add_sub: Some(false),
        half_carry: Some(value % 16 + offset as u16 % 16 > 15),
        carry: Some(value % 256 + offset as u16 > 255),
    }
}

pub fn add16(hl: u16, rr: u16) -> (r: Result16)
    ensures
        r == add16_result(hl, rr),
{
    Result16 {
        value: hl.wrapping_add(rr),
        zero: None,
        add_sub: Some(false),
        half_carry: Some(hl % 4096 + rr % 4096 > 4095),
        carry: Some(hl as u32 + rr as u32 > 0xFFFF),
    }
}

fn shift_result(value: u8, carry: bool) -> (r: Result)
    ensures
        r == shifted(value, carry),
{
    Result {
        value,
        zero: Some(value == 0),
        add_sub: Some(false),
        half_carry: Some(false),
        carry: Some(carry),
    }
}

pub fn rlc(value: u8) -> (r: Result)
    ensures
        r == rlc_result(value),
{
    shift_result((value << 1) | (value >> 7), value >= 0x80)
}

pub fn rrc(value: u8) -> (r: Result)
    ensures
        r == rrc_result(value),
{
    shift_result((value >> 1) | (value << 7), value % 2 == 1)
}

pub fn rl(value: u8, flags: u8) -> (r: Result)
    ensures
        r == rl_result(value, flags),
{
    let carry: u8 = if flags & 0x10 != 0 { 1 } else { 0 };
    shift_result((value << 1) | carry, value >= 0x80)
}

pub fn rr(value: u8, flags: u8) -> (r: Result)
    ensures
        r == rr_result(value, flags),
{
    let carry: u8 = if flags & 0x10 != 0 { 0x80 } else { 0 };
    shift_result((value >> 1) | carry, value % 2 == 1)
}

pub fn sla(value: u8) -> (r: Result)
    ensures
        r == sla_result(value),
{
    shift_result(value << 1, value >= 0x80)
}

pub fn sra(value: u8) -> (r: Result)
    ensures
        r == sra_result(value),
{
    shift_result((value >> 1) | (value & 0x80), value % 2 == 1)
}

pub fn srl(value: u8) -> (r: Result)
    ensures
        r == srl_result(value),
{
    shift_result(value >> 1, value % 2 == 1)
}

pub fn swap(value: u8) -> (r: Result)
    ensures
        r == swap_result(value),
{
    shift_result((value << 4) | (value >> 4), false)
}

pub fn bit(n: u8, value: u8) -> (r: Result)
    requires
        n < 8,
    ensures
        r == bit_result(n, value),
{
    Result {
        value,
        zero: Some((value >> n) & 1 == 0),
        add_sub: Some(false),
        half_carry: Some(true),
        carry: None,
    }
}

/// `RES n`: bit `n` cleared.
pub fn reset_bit(n: u8, value: u8) -> (r: u8)
    requires
        n < 8,
    ensures
        r == value & !(1u8 << n),
{
    value & !(1u8 << n)
}

/// `SET n`: bit `n` set.
pub fn set_bit(n: u8, value: u8) -> (r: u8)
    requires
        n < 8,
    ensures
        r == value | (1u8 << n),
{
    value | (1u8 << n)
}

pub fn daa(a: u8, n: bool, h: bool, c: bool) -> (r: Result)
    ensures
        r == daa_result(a, n, h, c),
{
    let value = if !n {
        let mut v = a;
        if c || a > 0x99 {
            v = v.wrapping_add(0x60);
        }
        if h || a % 16 > 9 {
            v = v.wrapping_add(0x06);
        }
        v
    } else {
        let mut v = a;
        if c {
            v = v.wrapping_sub(0x60);
        }
        if h {
            v = v.wrapping_sub(0x06);
        }
        v
    };
    Result {
        value,
        zero: Some(value == 0),
        add_sub: None,
        half_carry: Some(false),
        carry: Some(if n { c } else { c || a > 0x99 }),
    }
}

} // verus!
