//! The monochrome display: a 64 x 32 grid of pixels that sprites are XORed into.

use vstd::prelude::*;
use crate::bits::{get_bit, spec_get_bit};

verus! {

/// Columns of the display.
pub const WIDTH: u32 = 64;

/// Rows of the display.
pub const HEIGHT: u32 = 32;

/// A screen is 32 rows of 64 pixels each.
pub open spec fn screen_wf(pixels: Seq<Seq<bool>>) -> bool {
    &&& pixels.len() == 32
    &&& forall|r: int| 0 <= r < 32 ==> (#[trigger] pixels[r]).len() == 64
}

/// The screen with every pixel off.
pub open spec fn blank_screen() -> Seq<Seq<bool>> {
    Seq::new(32, |r: int| Seq::new(64, |c: int| false))
}

/// Whether a byte drawn with its most significant bit at column `x` lights
/// column `c`. Columns at or beyond 64 are never lit: a sprite is clipped at
/// the right edge, it does not wrap.
pub open spec fn sprite_bit(value: u8, x: int, c: int) -> bool {
    x <= c < x + 8 && c < 64 && spec_get_bit(value, (c - x) as u8)
}

/// The screen after `value` has been XORed into row `y` from column `x` on.
pub open spec fn draw_byte(pixels: Seq<Seq<bool>>, x: int, y: int, value: u8) -> Seq<Seq<bool>> {
    Seq::new(
        32,
        |r: int|
            Seq::new(
                64,
                |c: int|
                    if r == y {
                        pixels[r][c] != sprite_bit(value, x, c)
                    } else {
                        pixels[r][c]
                    },
            ),
    )
}

/// Whether drawing `value` into row `y` from column `x` on meets a pixel that
/// is already lit.
pub open spec fn byte_collides(pixels: Seq<Seq<bool>>, x: int, y: int, value: u8) -> bool {
    exists|c: int| 0 <= c < 64 && sprite_bit(value, x, c) && #[trigger] pixels[y][c]
}

/// The screen after a sprite of `rows` rows has been XORed into it with its
/// top left corner at column `x` of row `y`; row `i` of the sprite is the byte
/// of `memory` at `index + i`.
pub open spec fn draw_sprite(
    pixels: Seq<Seq<bool>>,
    memory: Seq<u8>,
    index: int,
    x: int,
    y: int,
    rows: int,
) -> Seq<Seq<bool>> {
    Seq::new(
        32,
        |r: int|
            Seq::new(
                64,
                |c: int|
                    if y <= r < y + rows {
                        pixels[r][c] != sprite_bit(memory[index + r - y], x, c)
                    } else {
                        pixels[r][c]
                    },
            ),
    )
}

/// Whether drawing that sprite meets a pixel that is already lit.
pub open spec fn sprite_collides(
    pixels: Seq<Seq<bool>>,
    memory: Seq<u8>,
    index: int,
    x: int,
    y: int,
    rows: int,
) -> bool {
    exists|r: int, c: int|
        y <= r < y + rows && 0 <= r < 32 && 0 <= c < 64 && sprite_bit(
            memory[index + r - y],
            x,
            c,
        ) && #[trigger] pixels[r][c]
}

/// The screen as one row-major sequence of 2048 pixels.
pub open spec fn flatten(pixels: Seq<Seq<bool>>) -> Seq<bool> {
    Seq::new(2048, |i: int| pixels[i / 64][i % 64])
}

/// Drawing a byte changes nothing outside the columns `x` to `x + 7` of row
/// `y`, and nothing at all beyond the right edge: what would fall on column 64
/// or later is dropped, never carried over to column 0.
pub proof fn lemma_draw_byte_clips(pixels: Seq<Seq<bool>>, x: int, y: int, value: u8)
    requires
        screen_wf(pixels),
    ensures
        screen_wf(draw_byte(pixels, x, y, value)),
        forall|r: int, c: int|
            0 <= r < 32 && 0 <= c < 64 && (r != y || c < x || c >= x + 8) ==> draw_byte(
                pixels,
                x,
                y,
                value,
            )[r][c] == pixels[r][c],
{
}

/// Drawing the same byte twice at the same place gives back the screen as it
/// was, and the second draw reports a collision exactly when the first one
/// lit a pixel, that is when some pixel under a set bit of the byte was off.
pub proof fn lemma_draw_byte_twice(pixels: Seq<Seq<bool>>, x: int, y: int, value: u8)
    requires
        screen_wf(pixels),
        0 <= y < 32,
    ensures
        draw_byte(draw_byte(pixels, x, y, value), x, y, value) == pixels,
        byte_collides(draw_byte(pixels, x, y, value), x, y, value) == (exists|c: int|
            0 <= c < 64 && sprite_bit(value, x, c) && !#[trigger] pixels[y][c]),
{
    let once = draw_byte(pixels, x, y, value);
    assert(draw_byte(once, x, y, value) =~~= pixels);
    assert forall|c: int| 0 <= c < 64 && sprite_bit(value, x, c) implies once[y][c]
        != pixels[y][c] by {}
}

/// Drawing the same sprite twice at the same place, with nothing drawn in
/// between, gives back the screen as it was, and the second draw reports a
/// collision exactly when the first one lit a pixel.
pub proof fn lemma_draw_sprite_twice(
    pixels: Seq<Seq<bool>>,
    memory: Seq<u8>,
    index: int,
    x: int,
    y: int,
    rows: int,
)
    requires
        screen_wf(pixels),
    ensures
        draw_sprite(draw_sprite(pixels, memory, index, x, y, rows), memory, index, x, y, rows)
            == pixels,
        sprite_collides(draw_sprite(pixels, memory, index, x, y, rows), memory, index, x, y, rows)
            == (exists|r: int, c: int|
            y <= r < y + rows && 0 <= r < 32 && 0 <= c < 64 && sprite_bit(
                memory[index + r - y],
                x,
                c,
            ) && !#[trigger] pixels[r][c]),
{
    let once = draw_sprite(pixels, memory, index, x, y, rows);
    assert(draw_sprite(once, memory, index, x, y, rows) =~~= pixels);
    assert forall|r: int, c: int|
        y <= r < y + rows && 0 <= r < 32 && 0 <= c < 64 && sprite_bit(
            memory[index + r - y],
            x,
            c,
        ) implies once[r][c] != pixels[r][c] by {}
}

/// A sprite touches only its own rows, and in them only the columns from `x`
/// to `x + 7` that lie on the screen.
pub proof fn lemma_draw_sprite_clips(
    pixels: Seq<Seq<bool>>,
    memory: Seq<u8>,
    index: int,
    x: int,
    y: int,
    rows: int,
)
    requires
        screen_wf(pixels),
    ensures
        screen_wf(draw_sprite(pixels, memory, index, x, y, rows)),
        forall|r: int, c: int|
            0 <= r < 32 && 0 <= c < 64 && (r < y || r >= y + rows || c < x || c >= x + 8)
                ==> draw_sprite(pixels, memory, index, x, y, rows)[r][c] == pixels[r][c],
{
}

pub struct FrameBuffer {
    pixels: [[bool; 64]; 32],
}

impl View for FrameBuffer {
    type V = Seq<Seq<bool>>;

    closed spec fn view(&self) -> Seq<Seq<bool>> {
        Seq::new(32, |r: int| Seq::new(64, |c: int| self.pixels[r][c]))
    }
}

impl FrameBuffer {
    /// Every frame buffer is a well-formed screen.
    pub proof fn lemma_view_wf(&self)
        ensures
            screen_wf(self@),
    {
    }

    /// A display with every pixel off.
    pub fn new() -> (fb: Self)
        ensures
            fb@ == blank_screen(),
    {
        let fb = Self { pixels: [[false; 64]; 32] };
        assert(fb@ =~~= blank_screen());
        fb
    }

    /// Turns every pixel off.
    pub fn clear(&mut self)
        ensures
            final(self)@ == blank_screen(),
    {
        self.pixels = [[false; 64]; 32];
        assert(self@ =~~= blank_screen());
    }

    /// The pixel at column `x` of row `y`.
    pub fn get(&self, x: u8, y: u8) -> (on: bool)
        requires
            x < 64,
            y < 32,
        ensures
            on == self@[y as int][x as int],
    {
        self.pixels[y as usize][x as usize]
    }

    /// XORs the eight pixels of `value`, most significant bit first, into row
    /// `y` starting at column `x`, and reports whether a lit pixel was hit.
    /// Columns at or beyond 64 are left alone.
    pub fn set(&mut self, x: u8, y: u8, value: u8) -> (collided: bool)
        requires
            y < 32,
        ensures
            final(self)@ == draw_byte(old(self)@, x as int, y as int, value),
            collided == byte_collides(old(self)@, x as int, y as int, value),
    {
        let mut vf_flip = false;
        let ghost before = self@;
        let mut i: u8 = 0;
        while i < 8 && x as u16 + i as u16 <= 63
            invariant
                i <= 8,
                y < 32,
                before == old(self)@,
                screen_wf(before),
                forall|r: int, c: int|
                    0 <= r < 32 && 0 <= c < 64 ==> #[trigger] self@[r][c] == (if r == y && c < x
                        + i {
                        before[r][c] != sprite_bit(value, x as int, c)
                    } else {
                        before[r][c]
                    }),
                vf_flip == (exists|c: int|
                    0 <= c < 64 && c < x + i && sprite_bit(value, x as int, c)
                        && #[trigger] before[y as int][c]),
            decreases 8 - i,
        {
            let bit_on = get_bit(&value, &i);
            let col: usize = (x + i) as usize;
            let ghost prev = self@;
            if bit_on {
                if self.pixels[y as usize][col] {
                    vf_flip = true;
                }
                self.pixels[y as usize][col] ^= true;
            }
            assert(prev[y as int][col as int] == before[y as int][col as int]);
            assert forall|r: int, c: int| 0 <= r < 32 && 0 <= c < 64 implies #[trigger] self@[r][c]
                == (if r == y && c < x + i + 1 {
                before[r][c] != sprite_bit(value, x as int, c)
            } else {
                before[r][c]
            }) by {
                assert(prev[r][c] == (if r == y && c < x + i {
                    before[r][c] != sprite_bit(value, x as int, c)
                } else {
                    before[r][c]
                }));
            }
            i += 1;
        }
        assert(self@ =~~= draw_byte(before, x as int, y as int, value));
        vf_flip
    }

    /// XORs a sprite of `rows` rows into the screen with its top left corner at
    /// column `x` of row `y`, reading row `i` from `memory` at `index + i`, and
    /// reports whether any row hit a lit pixel.
    pub fn draw_sprite(
        &mut self,
        memory: &[u8; 4096],
        index: u16,
        x: u8,
        y: u8,
        rows: u8,
    ) -> (collided: bool)
        requires
            y + rows <= 32,
            index + rows <= 4096,
        ensures
            final(self)@ == draw_sprite(
                old(self)@,
                memory@,
                index as int,
                x as int,
                y as int,
                rows as int,
            ),
            collided == sprite_collides(
                old(self)@,
                memory@,
                index as int,
                x as int,
                y as int,
                rows as int,
            ),
    {
        let mut vf_flip = false;
        let ghost before = self@;
        let mut i: u8 = 0;
        assert(before =~~= draw_sprite(before, memory@, index as int, x as int, y as int, 0));
        while i < rows
            invariant
                i <= rows,
                y + rows <= 32,
                index + rows <= 4096,
                before == old(self)@,
                screen_wf(before),
                self@ == draw_sprite(before, memory@, index as int, x as int, y as int, i as int),
                vf_flip == sprite_collides(
                    before,
                    memory@,
                    index as int,
                    x as int,
                    y as int,
                    i as int,
                ),
            decreases rows - i,
        {
            let ghost prev = self@;
            let row: u8 = memory[(index + i as u16) as usize];
            let hit = self.set(x, y + i, row);
            proof {
                assert(self@ =~~= draw_sprite(
                    before,
                    memory@,
                    index as int,
                    x as int,
                    y as int,
                    i + 1,
                ));
                if hit {
                    let c = choose|c: int|
                        0 <= c < 64 && sprite_bit(row, x as int, c) && #[trigger] prev[y + i][c];
                    assert(before[y + i][c]);
                }
                if !vf_flip && sprite_collides(
                    before,
                    memory@,
                    index as int,
                    x as int,
                    y as int,
                    i + 1,
                ) {
                    let (r, c) = choose|r: int, c: int|
                        y <= r < y + i + 1 && 0 <= r < 32 && 0 <= c < 64 && sprite_bit(
                            memory@[index + r - y],
                            x as int,
                            c,
                        ) && #[trigger] before[r][c];
                    assert(prev[y + i][c]);
                }
            }
            vf_flip = vf_flip || hit;
            i += 1;
        }
        vf_flip
    }

    /// The whole screen, row after row, for presentation.
    pub fn export(&self) -> (out: [bool; 2048])
        ensures
            out@ == flatten(self@),
    {
        let mut final_array = [false; 2048];
        let mut j: usize = 0;
        while j < 32
            invariant
                j <= 32,
                forall|k: int| 0 <= k < j * 64 ==> final_array@[k] == self@[k / 64][k % 64],
            decreases 32 - j,
        {
            let mut i: usize = 0;
            while i < 64
                invariant
                    j < 32,
                    i <= 64,
                    forall|k: int|
                        0 <= k < j * 64 + i ==> final_array@[k] == self@[k / 64][k % 64],
                decreases 64 - i,
            {
                final_array[j * 64 + i] = self.pixels[j][i];
                i += 1;
            }
            j += 1;
        }
        final_array
    }
}

} // verus!
