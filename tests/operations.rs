use emulador_gb::operations;

#[test]
fn test_add() {
    let result = operations::add(1, 1);
    assert_eq!(result.value, 2);
    assert_eq!(result.zero, Some(false));
    assert_eq!(result.add_sub, Some(false));
    assert_eq!(result.half_carry, Some(false));
    assert_eq!(result.carry, Some(false));
}

#[test]
fn test_adc() {
    let result = operations::adc(1, 1, true);
    assert_eq!(result.value, 3);
    assert_eq!(result.zero, Some(false));
    assert_eq!(result.add_sub, Some(false));
    assert_eq!(result.half_carry, Some(false));
    assert_eq!(result.carry, Some(false));
}

#[test]
fn test_sub() {
    let result = operations::sub(2, 1);
    assert_eq!(result.value, 1);
    assert_eq!(result.zero, Some(false));
    assert_eq!(result.add_sub, Some(true));
    assert_eq!(result.half_carry, Some(false));
    assert_eq!(result.carry, Some(false));
}

#[test]
fn test_sbc() {
    let result = operations::sbc(2, 1, true);
    assert_eq!(result.value, 0);
    assert_eq!(result.zero, Some(true));
    assert_eq!(result.add_sub, Some(true));
    assert_eq!(result.half_carry, Some(false));
    assert_eq!(result.carry, Some(false));
}

#[test]
fn test_and() {
    let result = operations::and(2, 3);
    assert_eq!(result.value, 2);
    assert_eq!(result.zero, Some(false));
    assert_eq!(result.add_sub, Some(false));
    assert_eq!(result.half_carry, Some(true));
    assert_eq!(result.carry, Some(false));
}

#[test]
fn test_or() {
    let result = operations::or(2, 1);
    assert_eq!(result.value, 3);
    assert_eq!(result.zero, Some(false));
    assert_eq!(result.add_sub, Some(false));
    assert_eq!(result.half_carry, Some(false));
    assert_eq!(result.carry, Some(false));
}

#[test]
fn test_xor() {
    let result = operations::xor(2, 3);
    assert_eq!(result.value, 1);
    assert_eq!(result.zero, Some(false));
    assert_eq!(result.add_sub, Some(false));
    assert_eq!(result.half_carry, Some(false));
    assert_eq!(result.carry, Some(false));
}

#[test]
fn test_cp() {
    let result = operations::cp(2, 2);
    assert_eq!(result.value, 2);
    assert_eq!(result.zero, Some(true));
    assert_eq!(result.add_sub, Some(true));
    assert_eq!(result.half_carry, Some(false));
    assert_eq!(result.carry, Some(false));
}

#[test]
fn add_matches_formula_on_all_pairs() {
    for a in 0..=255u8 {
        for b in 0..=255u8 {
            let r = operations::add(a, b);
            let sum = a as u32 + b as u32;
            assert_eq!(r.value as u32, sum % 256);
            assert_eq!(r.carry, Some(sum > 0xFF));
            assert_eq!(r.half_carry, Some((a & 0x0F) + (b & 0x0F) > 0x0F));
            assert_eq!(r.zero, Some(sum % 256 == 0));
        }
    }
}

#[test]
fn add_wraps_to_zero_with_both_carries() {
    let r = operations::add(0xFF, 0x01);
    assert_eq!(r.value, 0);
    assert_eq!(r.zero, Some(true));
    assert_eq!(r.half_carry, Some(true));
    assert_eq!(r.carry, Some(true));
}

#[test]
fn adc_half_carry_includes_carry_in() {
    let r = operations::adc(0x0F, 0x00, true);
    assert_eq!(r.value, 0x10);
    assert_eq!(r.half_carry, Some(true));
    assert_eq!(r.carry, Some(false));
    let r = operations::adc(0xFF, 0x00, true);
    assert_eq!(r.value, 0x00);
    assert_eq!(r.zero, Some(true));
    assert_eq!(r.carry, Some(true));
}

#[test]
fn sbc_borrow_includes_carry_in() {
    let r = operations::sbc(0x10, 0x0F, true);
    assert_eq!(r.value, 0x00);
    assert_eq!(r.half_carry, Some(true));
    assert_eq!(r.carry, Some(false));
    let r = operations::sbc(0x01, 0x01, true);
    assert_eq!(r.value, 0xFF);
    assert_eq!(r.carry, Some(true));
}

#[test]
fn sub_borrows_below_zero() {
    let r = operations::sub(0x00, 0x01);
    assert_eq!(r.value, 0xFF);
    assert_eq!(r.half_carry, Some(true));
    assert_eq!(r.carry, Some(true));
    assert_eq!(r.add_sub, Some(true));
}

#[test]
fn inc_dec_round_trip_on_all_values() {
    for v in 0..=255u8 {
        let back = operations::inc(operations::dec(v).value);
        assert_eq!(back.value, v);
        assert_eq!(back.zero, Some(v == 0));
        assert_eq!(back.half_carry, Some(v % 16 == 0));
        assert_eq!(back.carry, None);
        let back = operations::dec(operations::inc(v).value);
        assert_eq!(back.value, v);
        assert_eq!(back.add_sub, Some(true));
        assert_eq!(back.half_carry, Some(v % 16 == 15));
    }
}

#[test]
fn inc_and_dec_leave_carry_alone() {
    let r = operations::inc(0xFF);
    assert_eq!(r.value, 0);
    assert_eq!(r.zero, Some(true));
    assert_eq!(r.half_carry, Some(true));
    assert_eq!(r.carry, None);
    let r = operations::dec(0x10);
    assert_eq!(r.value, 0x0F);
    assert_eq!(r.half_carry, Some(true));
    assert_eq!(r.carry, None);
}

#[test]
fn rotate_eight_times_is_identity() {
    for v in 0..=255u8 {
        let mut x = v;
        let mut y = v;
        for _ in 0..8 {
            x = operations::rlc(x).value;
            y = operations::rrc(y).value;
        }
        assert_eq!(x, v);
        assert_eq!(y, v);
    }
}

#[test]
fn rotates_and_shifts_on_known_values() {
    let r = operations::rlc(0x85);
    assert_eq!(r.value, 0x0B);
    assert_eq!(r.carry, Some(true));
    let r = operations::rrc(0x01);
    assert_eq!(r.value, 0x80);
    assert_eq!(r.carry, Some(true));
    let r = operations::rl(0x80, 0x00);
    assert_eq!(r.value, 0x00);
    assert_eq!(r.zero, Some(true));
    assert_eq!(r.carry, Some(true));
    let r = operations::rl(0x01, 0x10);
    assert_eq!(r.value, 0x03);
    assert_eq!(r.carry, Some(false));
    let r = operations::rr(0x01, 0x10);
    assert_eq!(r.value, 0x80);
    assert_eq!(r.carry, Some(true));
    let r = operations::sla(0xC1);
    assert_eq!(r.value, 0x82);
    assert_eq!(r.carry, Some(true));
    let r = operations::sra(0x81);
    assert_eq!(r.value, 0xC0);
    assert_eq!(r.carry, Some(true));
    let r = operations::srl(0x81);
    assert_eq!(r.value, 0x40);
    assert_eq!(r.carry, Some(true));
    let r = operations::swap(0xF1);
    assert_eq!(r.value, 0x1F);
    assert_eq!(r.carry, Some(false));
}

#[test]
fn bit_res_set() {
    let r = operations::bit(3, 0x08);
    assert_eq!(r.zero, Some(false));
    assert_eq!(r.half_carry, Some(true));
    assert_eq!(r.carry, None);
    let r = operations::bit(2, 0x08);
    assert_eq!(r.zero, Some(true));
    assert_eq!(operations::reset_bit(7, 0xFF), 0x7F);
    assert_eq!(operations::set_bit(0, 0x00), 0x01);
}

#[test]
fn add_sp_uses_signed_offset_and_low_byte_flags() {
    let r = operations::add_sp(0xFFF8, 0x08);
    assert_eq!(r.value, 0x0000);
    assert_eq!(r.zero, Some(false));
    assert_eq!(r.add_sub, Some(false));
    assert_eq!(r.half_carry, Some(true));
    assert_eq!(r.carry, Some(true));
    let r = operations::add_sp(0x0005, 0xFE);
    assert_eq!(r.value, 0x0003);
    assert_eq!(r.half_carry, Some(true));
    assert_eq!(r.carry, Some(true));
    let r = operations::add_sp(0x1000, 0x80);
    assert_eq!(r.value, 0x0F80);
    assert_eq!(r.half_carry, Some(false));
    assert_eq!(r.carry, Some(false));
}

#[test]
fn add16_half_carry_at_bit_eleven() {
    let r = operations::add16(0x0FFF, 0x0001);
    assert_eq!(r.value, 0x1000);
    assert_eq!(r.half_carry, Some(true));
    assert_eq!(r.carry, Some(false));
    assert_eq!(r.zero, None);
    let r = operations::add16(0xFFFF, 0x0001);
    assert_eq!(r.value, 0x0000);
    assert_eq!(r.carry, Some(true));
}

#[test]
fn daa_after_add_and_after_sub() {
    let r = operations::daa(0x7D, false, false, false);
    assert_eq!(r.value, 0x83);
    assert_eq!(r.carry, Some(false));
    let r = operations::daa(0x9A, false, false, false);
    assert_eq!(r.value, 0x00);
    assert_eq!(r.zero, Some(true));
    assert_eq!(r.carry, Some(true));
    let r = operations::daa(0xFF, true, true, true);
    assert_eq!(r.value, 0x99);
    assert_eq!(r.carry, Some(true));
    assert_eq!(r.half_carry, Some(false));
    assert_eq!(r.add_sub, None);
}
