use nes_cpu::alu::{
    add_with_carry, compare, decrement, displace, high_byte, increment, low_byte, make_word,
    offset_byte, offset_word, rotate_left, rotate_right, step_in_page, subtract_with_borrow,
};
use nes_cpu::instruction::decode;
use nes_cpu::status::{
    assign_flag, clear_flag, mask, pushed_status, replace_flags, set_flag, test_flag,
    update_zero_negative,
};
use nes_cpu::{AddressingMode, Flag, Instruction, Mnemonic};

const FLAGS: [Flag; 6] = [
    Flag::Carry,
    Flag::Zero,
    Flag::InterruptDisable,
    Flag::Decimal,
    Flag::Overflow,
    Flag::Negative,
];

#[test]
fn flag_masks() {
    assert_eq!(mask(Flag::Carry), 0b0000_0001);
    assert_eq!(mask(Flag::Zero), 0b0000_0010);
    assert_eq!(mask(Flag::InterruptDisable), 0b0000_0100);
    assert_eq!(mask(Flag::Decimal), 0b0000_1000);
    assert_eq!(mask(Flag::Overflow), 0b0100_0000);
    assert_eq!(mask(Flag::Negative), 0b1000_0000);
}

#[test]
fn set_clear_and_test_every_flag_on_every_byte() {
    for bits in 0..=255u8 {
        for flag in FLAGS {
            let m = mask(flag);
            assert_eq!(test_flag(bits, flag), bits & m != 0);
            assert_eq!(set_flag(bits, flag), bits | m);
            assert_eq!(clear_flag(bits, flag), bits & !m);
            assert_eq!(assign_flag(bits, flag, true), bits | m);
            assert_eq!(assign_flag(bits, flag, false), bits & !m);
            assert!(test_flag(set_flag(bits, flag), flag));
            assert!(!test_flag(clear_flag(bits, flag), flag));
            for other in FLAGS {
                if other != flag {
                    assert_eq!(test_flag(set_flag(bits, flag), other), test_flag(bits, other));
                    assert_eq!(test_flag(clear_flag(bits, flag), other), test_flag(bits, other));
                }
            }
        }
    }
}

#[test]
fn update_zero_negative_examples() {
    assert_eq!(update_zero_negative(0x00, 0x00), 0x02);
    assert_eq!(update_zero_negative(0x00, 0x80), 0x80);
    assert_eq!(update_zero_negative(0x00, 0x40), 0x00);
    assert_eq!(update_zero_negative(0xFF, 0x00), 0x7F);
    assert_eq!(update_zero_negative(0xFF, 0xFF), 0xFD);
    assert_eq!(update_zero_negative(0xFF, 0x01), 0x7D);
    assert_eq!(update_zero_negative(0x82, 0x7F), 0x00);
    assert_eq!(update_zero_negative(0x7D, 0x00), 0x7F);
}

#[test]
fn update_zero_negative_on_every_pair() {
    for bits in 0..=255u8 {
        for value in 0..=255u8 {
            let mut expected = bits & 0x7D;
            if value == 0 {
                expected |= 0x02;
            }
            if value >= 0x80 {
                expected |= 0x80;
            }
            assert_eq!(update_zero_negative(bits, value), expected);
        }
    }
}

#[test]
fn status_bytes_for_the_stack() {
    assert_eq!(pushed_status(0x00), 0x30);
    assert_eq!(pushed_status(0xC3), 0xF3);
    assert_eq!(pushed_status(0xFF), 0xFF);
    assert_eq!(replace_flags(0x00, 0xFF), 0xCF);
    assert_eq!(replace_flags(0xFF, 0x00), 0x30);
    assert_eq!(replace_flags(0x10, 0xE1), 0xD1);
    assert_eq!(replace_flags(0x25, 0x4A), 0x6A);
}

#[test]
fn addition_matches_wide_arithmetic_everywhere() {
    for a in 0..=255u8 {
        for v in 0..=255u8 {
            for carry in [false, true] {
                let r = add_with_carry(a, v, carry);
                let wide = a as i32 + v as i32 + carry as i32;
                let signed = a as i8 as i32 + v as i8 as i32 + carry as i32;
                assert_eq!(r.value as i32, wide % 256);
                assert_eq!(r.carry, wide > 255);
                assert_eq!(r.overflow, !(-128..=127).contains(&signed));
            }
        }
    }
}

#[test]
fn subtraction_matches_wide_arithmetic_everywhere() {
    for a in 0..=255u8 {
        for v in 0..=255u8 {
            for carry in [false, true] {
                let r = subtract_with_borrow(a, v, carry);
                let wide = a as i32 - v as i32 - (!carry) as i32;
                let signed = a as i8 as i32 - v as i8 as i32 - (!carry) as i32;
                assert_eq!(r.value as i32, wide.rem_euclid(256));
                assert_eq!(r.carry, wide >= 0);
                assert_eq!(r.overflow, !(-128..=127).contains(&signed));
            }
        }
    }
}

#[test]
fn addition_examples() {
    let r = add_with_carry(0x50, 0x50, false);
    assert_eq!((r.value, r.carry, r.overflow), (0xA0, false, true));
    let r = add_with_carry(0xD0, 0x90, false);
    assert_eq!((r.value, r.carry, r.overflow), (0x60, true, true));
    let r = add_with_carry(0xFF, 0xFF, true);
    assert_eq!((r.value, r.carry, r.overflow), (0xFF, true, false));
    let r = subtract_with_borrow(0x50, 0xB0, true);
    assert_eq!((r.value, r.carry, r.overflow), (0xA0, false, true));
    let r = subtract_with_borrow(0x00, 0x00, false);
    assert_eq!((r.value, r.carry, r.overflow), (0xFF, false, false));
}

#[test]
fn rotations_on_every_byte() {
    for v in 0..=255u8 {
        for carry in [false, true] {
            let l = rotate_left(v, carry);
            assert_eq!(l.value as u16, (v as u16 * 2 + carry as u16) % 256);
            assert_eq!(l.carry, v >= 0x80);
            let r = rotate_right(v, carry);
            assert_eq!(r.value as u16, v as u16 / 2 + 128 * carry as u16);
            assert_eq!(r.carry, v % 2 == 1);
        }
    }
}

#[test]
fn comparison_examples() {
    let r = compare(0x40, 0x40);
    assert_eq!((r.value, r.carry), (0x00, true));
    let r = compare(0x40, 0x41);
    assert_eq!((r.value, r.carry), (0xFF, false));
    let r = compare(0x00, 0xFF);
    assert_eq!((r.value, r.carry), (0x01, false));
    let r = compare(0xFF, 0x00);
    assert_eq!((r.value, r.carry), (0xFF, true));
}

#[test]
fn wrapping_helpers() {
    assert_eq!(increment(0xFF), 0x00);
    assert_eq!(increment(0x7F), 0x80);
    assert_eq!(decrement(0x00), 0xFF);
    assert_eq!(decrement(0x80), 0x7F);
    assert_eq!(offset_byte(0xFF, 0x01), 0x00);
    assert_eq!(offset_byte(0x80, 0x90), 0x10);
    assert_eq!(offset_word(0xFFFF, 0x01), 0x0000);
    assert_eq!(offset_word(0x12F0, 0x20), 0x1310);
    assert_eq!(make_word(0x34, 0x12), 0x1234);
    assert_eq!(make_word(0xFF, 0x00), 0x00FF);
    assert_eq!(make_word(0x00, 0xFF), 0xFF00);
    assert_eq!(low_byte(0x1234), 0x34);
    assert_eq!(high_byte(0x1234), 0x12);
    assert_eq!(displace(0x8004, 0x05), 0x8009);
    assert_eq!(displace(0x8004, 0xFD), 0x8001);
    assert_eq!(displace(0x8004, 0x80), 0x7F84);
    assert_eq!(displace(0x0000, 0xFF), 0xFFFF);
    assert_eq!(displace(0xFFFF, 0x7F), 0x007E);
    assert_eq!(step_in_page(0x02FF), 0x0200);
    assert_eq!(step_in_page(0x0200), 0x0201);
    assert_eq!(step_in_page(0x00FF), 0x0000);
    assert_eq!(step_in_page(0xFFFF), 0xFF00);
    assert_eq!(step_in_page(0xFFFE), 0xFFFF);
}

#[test]
fn table_holds_the_documented_opcodes() {
    let entries = (0..=255u8).filter(|&op| decode(op).is_some()).count();
    assert_eq!(entries, 151);
}

#[test]
fn table_entries() {
    let entry = |mnemonic, mode| Some(Instruction { mnemonic, mode });
    assert_eq!(decode(0x00), entry(Mnemonic::Brk, AddressingMode::Implied));
    assert_eq!(decode(0xA9), entry(Mnemonic::Lda, AddressingMode::Immediate));
    assert_eq!(decode(0xAA), entry(Mnemonic::Tax, AddressingMode::Implied));
    assert_eq!(decode(0x6C), entry(Mnemonic::Jmp, AddressingMode::Indirect));
    assert_eq!(decode(0x4C), entry(Mnemonic::Jmp, AddressingMode::Absolute));
    assert_eq!(decode(0x96), entry(Mnemonic::Stx, AddressingMode::ZeroPageY));
    assert_eq!(decode(0xB6), entry(Mnemonic::Ldx, AddressingMode::ZeroPageY));
    assert_eq!(decode(0xBE), entry(Mnemonic::Ldx, AddressingMode::AbsoluteY));
    assert_eq!(decode(0x0A), entry(Mnemonic::Asl, AddressingMode::Accumulator));
    assert_eq!(decode(0x91), entry(Mnemonic::Sta, AddressingMode::IndirectY));
    assert_eq!(decode(0xE1), entry(Mnemonic::Sbc, AddressingMode::IndirectX));
    assert_eq!(decode(0xD0), entry(Mnemonic::Bne, AddressingMode::Relative));
    assert_eq!(decode(0xFE), entry(Mnemonic::Inc, AddressingMode::AbsoluteX));
    assert_eq!(decode(0x02), None);
    assert_eq!(decode(0x89), None);
    assert_eq!(decode(0x80), None);
    assert_eq!(decode(0xFF), None);
}

#[test]
fn table_is_regular_for_the_accumulator_operations() {
    let rows = [
        (0x00u8, Mnemonic::Ora),
        (0x20, Mnemonic::And),
        (0x40, Mnemonic::Eor),
        (0x60, Mnemonic::Adc),
        (0xA0, Mnemonic::Lda),
        (0xC0, Mnemonic::Cmp),
        (0xE0, Mnemonic::Sbc),
    ];
    let columns = [
        (0x01u8, AddressingMode::IndirectX),
        (0x05, AddressingMode::ZeroPage),
        (0x09, AddressingMode::Immediate),
        (0x0D, AddressingMode::Absolute),
        (0x11, AddressingMode::IndirectY),
        (0x15, AddressingMode::ZeroPageX),
        (0x19, AddressingMode::AbsoluteY),
        (0x1D, AddressingMode::AbsoluteX),
    ];
    for (row, mnemonic) in rows {
        for (column, mode) in columns {
            assert_eq!(decode(row + column), Some(Instruction { mnemonic, mode }));
        }
    }
}
