//! The 4096 bytes of memory: where the font and the program are placed.

use vstd::prelude::*;

verus! {

/// Address at which a program is loaded and starts.
pub const PROGRAM_START: u16 = 512;

/// The longest program that fits between its start address and the end of memory.
pub const PROGRAM_CAPACITY: usize = 3584;

/// The five rows of the glyph of one hexadecimal digit, written `0` to `9`
/// and `A` to `F`; any other character has an empty glyph.
pub open spec fn spec_character_sprite(c: char) -> Seq<u8> {
    if c == '0' {
        seq![0xF0u8, 0x90u8, 0x90u8, 0x90u8, 0xF0u8]
    } else if c == '1' {
        seq![0x20u8, 0x60u8, 0x20u8, 0x20u8, 0x70u8]
    } else if c == '2' {
        seq![0xF0u8, 0x10u8, 0xF0u8, 0x80u8, 0xF0u8]
    } else if c == '3' {
        seq![0xF0u8, 0x10u8, 0xF0u8, 0x10u8, 0xF0u8]
    } else if c == '4' {
        seq![0x90u8, 0x90u8, 0xF0u8, 0x10u8, 0x10u8]
    } else if c == '5' {
        seq![0xF0u8, 0x80u8, 0xF0u8, 0x10u8, 0xF0u8]
    } else if c == '6' {
        seq![0xF0u8, 0x80u8, 0xF0u8, 0x90u8, 0xF0u8]
    } else if c == '7' {
        seq![0xF0u8, 0x10u8, 0x20u8, 0x40u8, 0x40u8]
    } else if c == '8' {
        seq![0xF0u8, 0x90u8, 0xF0u8, 0x90u8, 0xF0u8]
    } else if c == '9' {
        seq![0xF0u8, 0x90u8, 0xF0u8, 0x10u8, 0xF0u8]
    } else if c == 'A' {
        seq![0xF0u8, 0x90u8, 0xF0u8, 0x90u8, 0x90u8]
    } else if c == 'B' {
        seq![0xE0u8, 0x90u8, 0xE0u8, 0x90u8, 0xE0u8]
    } else if c == 'C' {
        seq![0xF0u8, 0x80u8, 0x80u8, 0x80u8, 0xF0u8]
    } else if c == 'D' {
        seq![0xE0u8, 0x90u8, 0x90u8, 0x90u8, 0xE0u8]
    } else if c == 'E' {
        seq![0xF0u8, 0x80u8, 0xF0u8, 0x80u8, 0xF0u8]
    } else if c == 'F' {
        seq![0xF0u8, 0x80u8, 0xF0u8, 0x80u8, 0x80u8]
    } else {
        seq![0u8, 0u8, 0u8, 0u8, 0u8]
    }
}

/// The character that writes the hexadecimal digit `digit`.
pub open spec fn spec_digit_character(digit: int) -> char {
    if digit == 0 {
        '0'
    } else if digit == 1 {
        '1'
    } else if digit == 2 {
        '2'
    } else if digit == 3 {
        '3'
    } else if digit == 4 {
        '4'
    } else if digit == 5 {
        '5'
    } else if digit == 6 {
        '6'
    } else if digit == 7 {
        '7'
    } else if digit == 8 {
        '8'
    } else if digit == 9 {
        '9'
    } else if digit == 10 {
        'A'
    } else if digit == 11 {
        'B'
    } else if digit == 12 {
        'C'
    } else if digit == 13 {
        'D'
    } else if digit == 14 {
        'E'
    } else {
        'F'
    }
}

/// The byte of the font that lies at `address`, for addresses below 80: the
/// glyphs of the digits 0 to F follow each other, five bytes each.
pub open spec fn font_byte(address: int) -> u8 {
    spec_character_sprite(spec_digit_character(address / 5))[address % 5]
}

/// Memory with the font written over its first 80 bytes.
pub open spec fn with_font(memory: Seq<u8>) -> Seq<u8> {
    Seq::new(
        memory.len(),
        |a: int|
            if a < 80 {
                font_byte(a)
            } else {
                memory[a]
            },
    )
}

/// Memory with `program` written from address 512 on.
pub open spec fn with_program(memory: Seq<u8>, program: Seq<u8>) -> Seq<u8> {
    Seq::new(
        memory.len(),
        |a: int|
            if 512 <= a < 512 + program.len() {
                program[a - 512]
            } else {
                memory[a]
            },
    )
}

/// Memory as a machine starts with it: the font, zeros up to address 512,
/// the program, zeros after it.
pub open spec fn initial_memory(program: Seq<u8>) -> Seq<u8> {
    with_program(with_font(Seq::new(4096, |a: int| 0u8)), program)
}

/// How memory is laid out at the start: glyph `digit` lies at address
/// `5 * digit`, the program lies at address 512, and every other byte from
/// address 80 on is zero.
pub proof fn lemma_initial_memory_layout(program: Seq<u8>)
    requires
        program.len() <= PROGRAM_CAPACITY,
    ensures
        initial_memory(program).len() == 4096,
        forall|digit: int, row: int|
            0 <= digit < 16 && 0 <= row < 5 ==> #[trigger] initial_memory(program)[5 * digit
                + row] == spec_character_sprite(spec_digit_character(digit))[row],
        forall|i: int|
            0 <= i < program.len() ==> initial_memory(program)[512 + i] == #[trigger] program[i],
        forall|a: int|
            80 <= a < 512 || 512 + program.len() <= a < 4096 ==> #[trigger] initial_memory(
                program,
            )[a] == 0,
{
}

/// The glyph of one hexadecimal digit, given as its upper-case character.
pub fn get_character_sprite(c: char) -> (sprite: [u8; 5])
    ensures
        sprite@ == spec_character_sprite(c),
{
    let sprite: [u8; 5] = match c {
        '0' => [0xF0, 0x90, 0x90, 0x90, 0xF0],
        '1' => [0x20, 0x60, 0x20, 0x20, 0x70],
        '2' => [0xF0, 0x10, 0xF0, 0x80, 0xF0],
        '3' => [0xF0, 0x10, 0xF0, 0x10, 0xF0],
        '4' => [0x90, 0x90, 0xF0, 0x10, 0x10],
        '5' => [0xF0, 0x80, 0xF0, 0x10, 0xF0],
        '6' => [0xF0, 0x80, 0xF0, 0x90, 0xF0],
        '7' => [0xF0, 0x10, 0x20, 0x40, 0x40],
        '8' => [0xF0, 0x90, 0xF0, 0x90, 0xF0],
        '9' => [0xF0, 0x90, 0xF0, 0x10, 0xF0],
        'A' => [0xF0, 0x90, 0xF0, 0x90, 0x90],
        'B' => [0xE0, 0x90, 0xE0, 0x90, 0xE0],
        'C' => [0xF0, 0x80, 0x80, 0x80, 0xF0],
        'D' => [0xE0, 0x90, 0x90, 0x90, 0xE0],
        'E' => [0xF0, 0x80, 0xF0, 0x80, 0xF0],
        'F' => [0xF0, 0x80, 0xF0, 0x80, 0x80],
        _ => [0, 0, 0, 0, 0],
    };
    sprite
}

/// The upper-case character of a hexadecimal digit.
pub fn digit_character(digit: u8) -> (c: char)
    requires
        digit < 16,
    ensures
        c == spec_digit_character(digit as int),
{
    match digit {
        0 => '0',
        1 => '1',
        2 => '2',
        3 => '3',
        4 => '4',
        5 => '5',
        6 => '6',
        7 => '7',
        8 => '8',
        9 => '9',
        10 => 'A',
        11 => 'B',
        12 => 'C',
        13 => 'D',
        14 => 'E',
        _ => 'F',
    }
}

/// Writes the sixteen glyphs, in digit order, over the first 80 bytes.
pub fn load_font_into_memory(memory: &mut [u8; 4096])
    ensures
        final(memory)@ == with_font(old(memory)@),
{
    let mut i: usize = 0;
    let mut digit: u8 = 0;
    while digit < 16
        invariant
            digit <= 16,
            i == digit * 5,
            forall|a: int| 0 <= a < i ==> memory@[a] == font_byte(a),
            forall|a: int| i <= a < 4096 ==> memory@[a] == old(memory)@[a],
        decreases 16 - digit,
    {
        let sprite = get_character_sprite(digit_character(digit));
        let mut j: usize = 0;
        while j < 5
            invariant
                digit < 16,
                j <= 5,
                i == digit * 5 + j,
                sprite@ == spec_character_sprite(spec_digit_character(digit as int)),
                forall|a: int| 0 <= a < i ==> memory@[a] == font_byte(a),
                forall|a: int| i <= a < 4096 ==> memory@[a] == old(memory)@[a],
            decreases 5 - j,
        {
            memory[i] = sprite[j];
            i += 1;
            j += 1;
        }
        digit += 1;
    }
}

/// Copies `program` into memory from address 512 on.
pub fn load_program_into_memory(memory: &mut [u8; 4096], program: Vec<u8>)
    requires
        program@.len() <= PROGRAM_CAPACITY,
    ensures
        final(memory)@ == with_program(old(memory)@, program@),
{
    let mut index: usize = 512;
    let mut k: usize = 0;
    while k < program.len()
        invariant
            k <= program@.len() <= PROGRAM_CAPACITY,
            index == 512 + k,
            forall|a: int| 512 <= a < index ==> memory@[a] == program@[a - 512],
            forall|a: int|
                0 <= a < 4096 && !(512 <= a < index) ==> memory@[a] == old(memory)@[a],
        decreases program@.len() - k,
    {
        memory[index] = program[k];
        index += 1;
        k += 1;
    }
}

} // verus!
