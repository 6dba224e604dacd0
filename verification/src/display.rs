//! The framebuffer: a 64 by 32 grid of pixels that are either on or off,
//! stored row by row.

use vstd::prelude::*;

verus! {

/// Width of the screen in pixels.
pub const WINDOW_WIDTH: usize = 64;

/// Height of the screen in pixels.
pub const WINDOW_HEIGHT: usize = 32;

/// Number of pixels on the screen.
pub const NUM_PIXELS: usize = 2048;

/// Colour of a pixel that is off: black.
pub const PIXEL_OFF: u32 = 0x000000;

/// Colour of a pixel that is on: white.
pub const PIXEL_ON: u32 = 0xFFFFFF;

/// The framebuffer.
#[derive(Debug)]
pub struct Display {
    /// The pixels, row-major: the pixel at column `x` of row `y` is
    /// `pixels[y * 64 + x]`.
    pub pixels: [bool; 2048],
}

impl View for Display {
    type V = Seq<bool>;

    open spec fn view(&self) -> Seq<bool> {
        self.pixels@
    }
}

/// A screen with every pixel off.
pub open spec fn blank_screen() -> Seq<bool> {
    Seq::new(2048, |p: int| false)
}

/// The place in the framebuffer of the pixel at column `x` of row `y`, both
/// wrapped onto the screen.
pub open spec fn pixel_index(x: int, y: int) -> int {
    (y % 32) * 64 + (x % 64)
}

/// The screen with the pixel at `index` flipped.
pub open spec fn toggled(pixels: Seq<bool>, index: int) -> Seq<bool> {
    pixels.update(index, !pixels[index])
}

/// Whether the bit of a sprite row that belongs to column `col` is set.
/// Column 0 is the leftmost pixel of the row and the highest bit of the byte.
pub open spec fn sprite_bit(byte: u8, col: int) -> bool {
    0 <= col < 8 && byte & (0x80u8 >> (col as u8)) != 0
}

/// The sprite column that lands on the pixel at place `p` when column 0 is
/// drawn at screen column `x0`: columns wrap round the right edge.
pub open spec fn sprite_col(x0: int, p: int) -> int {
    (p % 64 - x0) % 64
}

/// The sprite row that lands on the pixel at place `p` when row 0 is drawn at
/// screen row `y0`: rows wrap round the bottom edge.
pub open spec fn sprite_row(y0: int, p: int) -> int {
    (p / 64 - y0) % 32
}

/// Whether a sprite drawn with its top left corner at column `x0` of row
/// `y0` has a set bit on the pixel at place `p`.
pub open spec fn sprite_covers(sprite: Seq<u8>, x0: int, y0: int, p: int) -> bool {
    &&& sprite_row(y0, p) < sprite.len()
    &&& sprite_bit(sprite[sprite_row(y0, p)], sprite_col(x0, p))
}

/// The screen after a sprite has been drawn onto it: every pixel under a set
/// bit is flipped, every other pixel is left alone.
pub open spec fn drawn(screen: Seq<bool>, sprite: Seq<u8>, x0: int, y0: int) -> Seq<bool> {
    Seq::new(2048, |p: int| screen[p] != sprite_covers(sprite, x0, y0, p))
}

/// Whether drawing a sprite turns off a pixel that was on.
pub open spec fn collides(screen: Seq<bool>, sprite: Seq<u8>, x0: int, y0: int) -> bool {
    exists|p: int| 0 <= p < 2048 && screen[p] && #[trigger] sprite_covers(sprite, x0, y0, p)
}

/// As `sprite_covers`, counting only the bits that come before column `col`
/// of row `row` when the sprite is gone through row by row.
spec fn covers_before(sprite: Seq<u8>, x0: int, y0: int, p: int, row: int, col: int) -> bool {
    &&& sprite_covers(sprite, x0, y0, p)
    &&& (sprite_row(y0, p) < row || (sprite_row(y0, p) == row && sprite_col(x0, p) < col))
}

/// As `collides`, counting only the bits before column `col` of row `row`.
spec fn collides_before(
    screen: Seq<bool>,
    sprite: Seq<u8>,
    x0: int,
    y0: int,
    row: int,
    col: int,
) -> bool {
    exists|p: int|
        0 <= p < 2048 && screen[p] && #[trigger] covers_before(sprite, x0, y0, p, row, col)
}

/// Bit `col` of row `row` lands on exactly one pixel, and on one that no
/// earlier bit of the sprite landed on.
proof fn lemma_sprite_cell(sprite: Seq<u8>, x0: int, y0: int, row: int, col: int)
    requires
        0 <= x0 < 64,
        0 <= y0 < 32,
        0 <= row < sprite.len() <= 32,
        0 <= col < 8,
    ensures
        0 <= pixel_index(x0 + col, y0 + row) < 2048,
        sprite_row(y0, pixel_index(x0 + col, y0 + row)) == row,
        sprite_col(x0, pixel_index(x0 + col, y0 + row)) == col,
        forall|p: int|
            0 <= p < 2048 && sprite_row(y0, p) == row && sprite_col(x0, p) == col ==> p
                == pixel_index(x0 + col, y0 + row),
{
}

impl Default for Display {
    /// A blank screen.
    fn default() -> (r: Display)
        ensures
            r@ == blank_screen(),
    {
        let r = Display { pixels: [false; 2048] };
        assert(r@ =~= blank_screen());
        r
    }
}

impl Display {
    /// A blank screen.
    pub fn new() -> (r: Display)
        ensures
            r@ == blank_screen(),
    {
        Display { ..Default::default() }
    }

    /// Turns every pixel off.
    pub fn clear(&mut self)
        ensures
            final(self)@ == blank_screen(),
    {
        self.pixels = [false; 2048];
        assert(self@ =~= blank_screen());
    }

    /// The column that `x` wraps to.
    pub fn get_x_postion(&self, x: usize) -> (r: usize)
        ensures
            r == x % 64,
    {
        x % WINDOW_WIDTH
    }

    /// The row that `y` wraps to.
    pub fn get_y_postion(&self, y: usize) -> (r: usize)
        ensures
            r == y % 32,
    {
        y % WINDOW_HEIGHT
    }

    /// Flips the pixel at `index`.
    pub fn set_pixels(&mut self, index: usize)
        requires
            index < 2048,
        ensures
            final(self)@ == toggled(old(self)@, index as int),
    {
        let on = self.pixels[index];
        self.pixels[index] = !on;
    }

    /// Whether the pixel at `index` is on.
    pub fn is_pixel_on(&self, index: usize) -> (r: bool)
        requires
            index < 2048,
        ensures
            r == self@[index as int],
    {
        self.pixels[index]
    }

    /// The colour of the pixel at `index`.
    pub fn get_pixel(&self, index: usize) -> (r: u32)
        requires
            index < 2048,
        ensures
            r == if self@[index as int] { PIXEL_ON } else { PIXEL_OFF },
    {
        if self.pixels[index] {
            PIXEL_ON
        } else {
            PIXEL_OFF
        }
    }

    /// Flips the pixel at column `x` of row `y`, after wrapping both onto the
    /// screen, and reports a collision: the pixel was on and is now off.
    pub fn set_pixel_xor(&mut self, x: usize, y: usize) -> (collided: bool)
        ensures
            0 <= pixel_index(x as int, y as int) < 2048,
            collided == old(self)@[pixel_index(x as int, y as int)],
            final(self)@ == toggled(old(self)@, pixel_index(x as int, y as int)),
    {
        let index = self.get_y_postion(y) * WINDOW_WIDTH + self.get_x_postion(x);
        let collided = self.is_pixel_on(index);
        self.set_pixels(index);
        collided
    }

    /// Draws a sprite with its top left corner at column `x % 64` of row
    /// `y % 32`. Each byte of the sprite is one row of eight pixels, highest
    /// bit leftmost. Set bits flip the pixel under them; pixels that would
    /// fall off the right or bottom edge wrap round to the other side. Returns
    /// whether any pixel went from on to off.
    pub fn draw_sprite(&mut self, x: u8, y: u8, sprite: &[u8]) -> (collided: bool)
        requires
            sprite@.len() <= 32,
        ensures
            final(self)@ == drawn(old(self)@, sprite@, x as int % 64, y as int % 32),
            collided == collides(old(self)@, sprite@, x as int % 64, y as int % 32),
    {
        let x0: usize = x as usize % WINDOW_WIDTH;
        let y0: usize = y as usize % WINDOW_HEIGHT;
        let rows: usize = sprite.len();
        let mut collided = false;
        let mut row: usize = 0;
        while row < rows
            invariant
                x0 < 64,
                y0 < 32,
                rows == sprite@.len(),
                rows <= 32,
                row <= rows,
                forall|p: int|
                    0 <= p < 2048 ==> self@[p] == (old(self)@[p] != covers_before(
                        sprite@,
                        x0 as int,
                        y0 as int,
                        p,
                        row as int,
                        0,
                    )),
                collided == collides_before(
                    old(self)@,
                    sprite@,
                    x0 as int,
                    y0 as int,
                    row as int,
                    0,
                ),
            decreases rows - row,
        {
            let byte = sprite[row];
            let mut col: usize = 0;
            while col < 8
                invariant
                    x0 < 64,
                    y0 < 32,
                    rows == sprite@.len(),
                    rows <= 32,
                    row < rows,
                    col <= 8,
                    byte == sprite@[row as int],
                    forall|p: int|
                        0 <= p < 2048 ==> self@[p] == (old(self)@[p] != covers_before(
                            sprite@,
                            x0 as int,
                            y0 as int,
                            p,
                            row as int,
                            col as int,
                        )),
                    collided == collides_before(
                        old(self)@,
                        sprite@,
                        x0 as int,
                        y0 as int,
                        row as int,
                        col as int,
                    ),
                decreases 8 - col,
            {
                let ghost before = self@;
                let ghost index = pixel_index(x0 + col, y0 + row);
                proof {
                    lemma_sprite_cell(sprite@, x0 as int, y0 as int, row as int, col as int);
                }
                if byte & (0x80u8 >> (col as u8)) != 0 {
                    let hit = self.set_pixel_xor(x0 + col, y0 + row);
                    proof {
                        assert(sprite_covers(sprite@, x0 as int, y0 as int, index));
                        assert(!covers_before(
                            sprite@,
                            x0 as int,
                            y0 as int,
                            index,
                            row as int,
                            col as int,
                        ));
                        assert(hit == old(self)@[index]);
                        if hit {
                            assert(covers_before(
                                sprite@,
                                x0 as int,
                                y0 as int,
                                index,
                                row as int,
                                col + 1,
                            ));
                        }
                    }
                    collided = collided || hit;
                }
                proof {
                    assert forall|p: int| 0 <= p < 2048 implies covers_before(
                        sprite@,
                        x0 as int,
                        y0 as int,
                        p,
                        row as int,
                        col + 1,
                    ) == (covers_before(
                        sprite@,
                        x0 as int,
                        y0 as int,
                        p,
                        row as int,
                        col as int,
                    ) || (p == index && sprite_bit(byte, col as int))) by {}
                }
                col += 1;
            }
            proof {
                assert forall|p: int| 0 <= p < 2048 implies covers_before(
                    sprite@,
                    x0 as int,
                    y0 as int,
                    p,
                    row as int,
                    8,
                ) == covers_before(sprite@, x0 as int, y0 as int, p, row + 1, 0) by {}
            }
            row += 1;
        }
        proof {
            assert forall|p: int| 0 <= p < 2048 implies covers_before(
                sprite@,
                x0 as int,
                y0 as int,
                p,
                rows as int,
                0,
            ) == sprite_covers(sprite@, x0 as int, y0 as int, p) by {}
            assert(self@ =~= drawn(old(self)@, sprite@, x0 as int, y0 as int));
        }
        collided
    }
}

} // verus!
