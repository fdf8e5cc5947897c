use chip8::framebuffer::FrameBuffer;
use chip8::machine::CHIP8;

fn lit_columns(fb: &FrameBuffer, y: u8) -> Vec<u8> {
    let mut lit = Vec::new();
    for x in 0..64u8 {
        if fb.get(x, y) {
            lit.push(x);
        }
    }
    lit
}

#[test]
fn new_frame_buffer_is_dark() {
    let fb = FrameBuffer::new();
    let flat = fb.export();
    assert_eq!(flat.len(), 2048);
    assert!(flat.iter().all(|lit| !lit));
}

#[test]
fn set_draws_most_significant_bit_first() {
    let mut fb = FrameBuffer::new();
    let collided = fb.set(8, 2, 0b1010_0001);
    assert!(!collided);
    assert_eq!(lit_columns(&fb, 2), vec![8, 10, 15]);
    assert_eq!(lit_columns(&fb, 1), Vec::<u8>::new());
    assert_eq!(lit_columns(&fb, 3), Vec::<u8>::new());
}

#[test]
fn set_clips_at_the_right_edge() {
    let mut fb = FrameBuffer::new();
    let collided = fb.set(60, 5, 0xFF);
    assert!(!collided);
    assert_eq!(lit_columns(&fb, 5), vec![60, 61, 62, 63]);
    for y in 0..32u8 {
        if y != 5 {
            assert_eq!(lit_columns(&fb, y), Vec::<u8>::new());
        }
    }
    assert!(!fb.get(0, 5));
    assert!(!fb.get(0, 6));
}

#[test]
fn set_beyond_the_last_column_draws_nothing() {
    let mut fb = FrameBuffer::new();
    assert!(!fb.set(64, 0, 0xFF));
    assert!(!fb.set(255, 31, 0xFF));
    assert!(fb.export().iter().all(|lit| !lit));
}

#[test]
fn set_reports_a_collision_and_turns_the_pixel_off() {
    let mut fb = FrameBuffer::new();
    assert!(!fb.set(0, 0, 0b1100_0000));
    let collided = fb.set(1, 0, 0b1100_0000);
    assert!(collided);
    assert_eq!(lit_columns(&fb, 0), vec![0, 2]);
}

#[test]
fn set_without_overlap_reports_no_collision() {
    let mut fb = FrameBuffer::new();
    assert!(!fb.set(0, 0, 0b1111_0000));
    assert!(!fb.set(0, 0, 0b0000_1111));
    assert_eq!(lit_columns(&fb, 0), vec![0, 1, 2, 3, 4, 5, 6, 7]);
}

#[test]
fn drawing_a_byte_twice_restores_the_screen() {
    let mut fb = FrameBuffer::new();
    fb.set(3, 7, 0b0110_0110);
    fb.set(59, 7, 0xFF);
    let before = fb.export();
    let first = fb.set(5, 7, 0b1011_1101);
    let second = fb.set(5, 7, 0b1011_1101);
    assert!(first);
    assert!(second);
    assert_eq!(fb.export(), before);
}

#[test]
fn second_draw_collides_exactly_when_the_first_lit_a_pixel() {
    let mut fb = FrameBuffer::new();
    assert!(!fb.set(0, 0, 0xF0));
    assert!(fb.set(0, 0, 0xF0));

    let mut covered = FrameBuffer::new();
    covered.set(0, 0, 0xFF);
    assert!(covered.set(0, 0, 0x3C));
    assert!(!covered.set(0, 0, 0x3C));

    let mut empty = FrameBuffer::new();
    assert!(!empty.set(0, 0, 0x00));
    assert!(!empty.set(0, 0, 0x00));
}

#[test]
fn clear_turns_every_pixel_off() {
    let mut fb = FrameBuffer::new();
    fb.set(0, 0, 0xFF);
    fb.set(30, 31, 0xFF);
    fb.clear();
    assert!(fb.export().iter().all(|lit| !lit));
}

#[test]
fn export_is_row_major() {
    let mut fb = FrameBuffer::new();
    fb.set(2, 1, 0x80);
    fb.set(63, 31, 0x80);
    let flat = fb.export();
    for (i, lit) in flat.iter().enumerate() {
        assert_eq!(*lit, i == 64 + 2 || i == 2047);
    }
}

#[test]
fn draw_sprite_reports_a_collision_in_any_row() {
    let mut memory = [0u8; 4096];
    memory[100] = 0x80;
    memory[101] = 0x80;
    memory[102] = 0x80;
    let mut fb = FrameBuffer::new();
    fb.set(4, 10, 0x80);
    let collided = fb.draw_sprite(&memory, 100, 4, 10, 3);
    assert!(collided);
    assert!(!fb.get(4, 10));
    assert!(fb.get(4, 11));
    assert!(fb.get(4, 12));
}

#[test]
fn draw_paints_white_and_black_opaque_pixels() {
    let mut emu = CHIP8::new(vec![]);
    emu.frame_buffer.set(0, 0, 0b0100_0000);
    let mut frame = vec![7u8; 8192];
    emu.draw(&mut frame);
    assert_eq!(&frame[0..4], &[0x00, 0x00, 0x00, 0xff]);
    assert_eq!(&frame[4..8], &[0xff, 0xff, 0xff, 0xff]);
    assert_eq!(&frame[8..12], &[0x00, 0x00, 0x00, 0xff]);
    assert_eq!(&frame[8188..8192], &[0x00, 0x00, 0x00, 0xff]);
}

#[test]
fn draw_leaves_an_incomplete_last_group_alone() {
    let emu = CHIP8::new(vec![]);
    let mut frame = vec![7u8; 10];
    emu.draw(&mut frame);
    assert_eq!(frame, vec![0, 0, 0, 0xff, 0, 0, 0, 0xff, 7, 7]);
}
