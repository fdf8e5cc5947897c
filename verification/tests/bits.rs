use chip8::bits::{get_bit, splice_digits};
use chip8::machine::CHIP8;
use chip8::opcode::Opcode;

#[test]
fn most_to_least_significant_bit() {
    for i in 0..8 {
        println!("4: bit {} is {}", i, get_bit(&4u8, &i));
    }

    assert!(get_bit(&4u8, &5u8));
    assert!(!get_bit(&4u8, &4u8));
}

#[test]
fn digit_splicing() {
    let number = 159;

    let (digit_one, digit_two, digit_three) = splice_digits(number);

    assert_eq!(digit_one, 1);
    assert_eq!(digit_two, 5);
    assert_eq!(digit_three, 9);
}

#[test]
fn hex_conversion() {
    let data: Vec<u8> = vec![0x00, 0xE0, 0xA2, 0x2A, 0x60, 0x0C, 0x61, 0x08];
    let emu = CHIP8::new(data);

    assert_eq!(emu.hex_chars_to_u16(vec!['2', '2', '8']), 552);
}

#[test]
fn get_bit_agrees_with_shift_and_mask_on_every_byte() {
    for b in 0..=255u8 {
        for p in 0..8u8 {
            assert_eq!(get_bit(&b, &p), (b >> (7 - p)) & 1 == 1);
        }
    }
}

#[test]
fn get_bit_reads_the_most_significant_bit_first() {
    assert!(get_bit(&0x80, &0));
    assert!(!get_bit(&0x80, &7));
    assert!(get_bit(&0x01, &7));
    assert!(!get_bit(&0x01, &0));
}

#[test]
fn digits_recompose_for_every_byte() {
    for x in 0..=255u8 {
        let (hundreds, tens, units) = splice_digits(x);
        assert_eq!(hundreds as u32 * 100 + tens as u32 * 10 + units as u32, x as u32);
        assert!(hundreds <= 2);
        assert!(tens <= 9);
        assert!(units <= 9);
    }
}

#[test]
fn digits_of_edge_values() {
    assert_eq!(splice_digits(0), (0, 0, 0));
    assert_eq!(splice_digits(9), (0, 0, 9));
    assert_eq!(splice_digits(10), (0, 1, 0));
    assert_eq!(splice_digits(100), (1, 0, 0));
    assert_eq!(splice_digits(255), (2, 5, 5));
}

#[test]
fn hex_text_in_both_cases_with_sign_and_leading_zeros() {
    let emu = CHIP8::new(vec![]);
    assert_eq!(emu.hex_chars_to_u16(vec!['F', 'F', 'F', 'F']), 65535);
    assert_eq!(emu.hex_chars_to_u16(vec!['f', 'f']), 255);
    assert_eq!(emu.hex_chars_to_u16(vec!['+', '1', 'a']), 26);
    assert_eq!(emu.hex_chars_to_u16(vec!['0', '0', '0', '0', '0', '1', '0']), 16);
    assert_eq!(emu.hex_chars_to_u16(vec!['0']), 0);
}

#[test]
fn hex_text_agrees_with_the_standard_parser() {
    let emu = CHIP8::new(vec![]);
    for text in ["228", "0", "ABC", "abc", "+7f", "00FF", "ffff", "1E0"] {
        let expected = u16::from_str_radix(text, 16).unwrap();
        assert_eq!(emu.hex_chars_to_u16(text.chars().collect()), expected);
    }
}

#[test]
fn hex_char_knows_upper_case_digits_only() {
    let emu = CHIP8::new(vec![]);
    assert_eq!(emu.hex_char_to_u16('0'), 0);
    assert_eq!(emu.hex_char_to_u16('9'), 9);
    assert_eq!(emu.hex_char_to_u16('A'), 10);
    assert_eq!(emu.hex_char_to_u16('F'), 15);
    assert_eq!(emu.hex_char_to_u16('a'), 0);
    assert_eq!(emu.hex_char_to_u16('G'), 0);
}

#[test]
fn opcode_fields_come_most_significant_first() {
    let op = Opcode::from_bytes(0xD1, 0x2F);
    assert_eq!(op, Opcode { n0: 0xD, n1: 0x1, n2: 0x2, n3: 0xF });
    assert_eq!(op.nnn(), 0x12F);
    assert_eq!(op.nn(), 0x2F);
}
