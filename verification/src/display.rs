//! The display surface: 64 by 32 pixels, each lit or unlit, addressed with
//! wraparound in both directions.

use vstd::prelude::*;

verus! {

/// Pixels in a row.
pub const DISPLAY_WIDTH: usize = 64;

/// Rows on the surface.
pub const DISPLAY_HEIGHT: usize = 32;

/// Pixels on the surface.
pub const DISPLAY_SIZE: usize = 2048;

/// Where the pixel at column `col`, row `row` stands in the row-major
/// sequence of pixels. Coordinates beyond an edge wrap round to the other.
pub open spec fn pixel_index(col: int, row: int) -> int {
    (row % 32) * 64 + col % 64
}

/// Whether a sprite row `bits` has its pixel `col` set. Column 0 is the most
/// significant bit; a row has eight columns.
pub open spec fn row_bit(bits: u8, col: int) -> bool {
    0 <= col < 8 && (bits >> ((7 - col) as u8)) & 1u8 == 1u8
}

/// Whether the sprite `rows`, drawn with its top left corner at column `x`,
/// row `y`, has a set pixel on the screen position `col`, `row`. The sprite
/// is eight columns wide and wraps round both edges.
pub open spec fn sprite_covers(x: int, y: int, rows: Seq<u8>, col: int, row: int) -> bool {
    let dx = (col - x) % 64;
    let dy = (row - y) % 32;
    dy < rows.len() && row_bit(rows[dy], dx)
}

/// Whether the sprite `rows`, drawn at column `x`, row `y`, has a set pixel
/// on the `k`-th pixel of the surface, counted row by row.
pub open spec fn sprite_flips(x: int, y: int, rows: Seq<u8>, k: int) -> bool {
    sprite_covers(x, y, rows, k % 64, k / 64)
}

/// The surface after the sprite `rows` has been drawn at column `x`, row
/// `y`: every pixel under a set pixel of the sprite is flipped, every other
/// pixel is kept.
pub open spec fn draw_spec(pixels: Seq<bool>, x: int, y: int, rows: Seq<u8>) -> Seq<bool> {
    Seq::new(pixels.len(), |k: int| pixels[k] != sprite_flips(x, y, rows, k))
}

/// Whether drawing the sprite `rows` at column `x`, row `y` turns off a
/// pixel that was lit.
pub open spec fn collides(pixels: Seq<bool>, x: int, y: int, rows: Seq<u8>) -> bool {
    exists|k: int|
        0 <= k < pixels.len() && #[trigger] pixels[k] && sprite_flips(x, y, rows, k)
}

/// A surface with every pixel unlit.
pub open spec fn blank() -> Seq<bool> {
    Seq::new(DISPLAY_SIZE as nat, |k: int| false)
}

/// A row offset is `r` rows below the top of a sprite exactly if it is the
/// top row of a sprite that starts `r` rows further down.
proof fn lemma_row_offset(a: int, r: int)
    requires
        0 <= r < 32,
    ensures
        ((a - r) % 32 == 0) <==> (a % 32 == r),
{
}

/// A sprite of `r + 1` rows covers what its first `r` rows cover and what
/// its last row covers, and the two never overlap.
proof fn lemma_covers_next_row(x: int, y: int, rows: Seq<u8>, r: int, k: int)
    requires
        0 <= r < rows.len(),
        r < 32,
    ensures
        sprite_flips(x, y, rows.take(r + 1), k) == (sprite_flips(x, y, rows.take(r), k)
            || sprite_flips(x, y + r, seq![rows[r]], k)),
        !(sprite_flips(x, y, rows.take(r), k) && sprite_flips(x, y + r, seq![rows[r]], k)),
{
    lemma_row_offset(k / 64 - y, r);
    let dy = (k / 64 - y) % 32;
    if dy < r {
        assert(rows.take(r + 1)[dy] == rows.take(r)[dy]);
    }
}

/// Whether the first `c` columns of the one-row sprite `bits`, drawn at
/// column `x`, row `y`, have a set pixel on the `k`-th pixel of the surface.
spec fn row_prefix_flips(x: int, y: int, bits: u8, c: int, k: int) -> bool {
    (k % 64 - x) % 64 < c && sprite_flips(x, y, seq![bits], k)
}

/// Column `c` of a one-row sprite lands on one pixel of the surface, and
/// the columns before it do not reach that pixel.
proof fn lemma_row_prefix_step(x: int, y: int, bits: u8, c: int, k: int)
    requires
        0 <= c < 8,
        0 <= k < 2048,
        0 <= x,
        0 <= y,
    ensures
        row_prefix_flips(x, y, bits, c + 1, k) == (row_prefix_flips(x, y, bits, c, k) || (k
            == pixel_index(x + c, y) && row_bit(bits, c))),
        !row_prefix_flips(x, y, bits, c, pixel_index(x + c, y)),
        0 <= pixel_index(x + c, y) < 2048,
{
    let at = pixel_index(x + c, y);
    assert((at % 64 - x) % 64 == c);
    assert(at / 64 == y % 32);
    assert((at / 64 - y) % 32 == 0);
    if (k % 64 - x) % 64 == c && (k / 64 - y) % 32 == 0 {
        assert(k / 64 == at / 64);
        assert(k % 64 == at % 64);
    }
}

/// Drawing a sprite row by row gives what drawing it whole gives: after the
/// first `r` rows, one more row drawn `r` rows further down completes the
/// first `r + 1`.
pub proof fn lemma_draw_next_row(pixels: Seq<bool>, x: int, y: int, rows: Seq<u8>, r: int)
    requires
        pixels.len() == DISPLAY_SIZE,
        0 <= r < rows.len(),
        r < 32,
    ensures
        draw_spec(draw_spec(pixels, x, y, rows.take(r)), x, y + r, seq![rows[r]]) == draw_spec(
            pixels,
            x,
            y,
            rows.take(r + 1),
        ),
        collides(pixels, x, y, rows.take(r + 1)) == (collides(pixels, x, y, rows.take(r))
            || collides(draw_spec(pixels, x, y, rows.take(r)), x, y + r, seq![rows[r]])),
{
    let before = rows.take(r);
    let after = rows.take(r + 1);
    let one = seq![rows[r]];
    let mid = draw_spec(pixels, x, y, before);
    assert forall|k: int| 0 <= k < 2048 implies {
        &&& #[trigger] sprite_flips(x, y, after, k) == (sprite_flips(x, y, before, k)
            || sprite_flips(x, y + r, one, k))
        &&& !(sprite_flips(x, y, before, k) && sprite_flips(x, y + r, one, k))
    } by {
        lemma_covers_next_row(x, y, rows, r, k);
    }
    assert(draw_spec(mid, x, y + r, one) =~= draw_spec(pixels, x, y, after));
    if collides(pixels, x, y, after) {
        let k = choose|k: int|
            0 <= k < pixels.len() && #[trigger] pixels[k] && sprite_flips(x, y, after, k);
        lemma_covers_next_row(x, y, rows, r, k);
        if !sprite_flips(x, y, before, k) {
            assert(mid[k]);
        }
    }
    if collides(pixels, x, y, before) {
        let k = choose|k: int|
            0 <= k < pixels.len() && #[trigger] pixels[k] && sprite_flips(x, y, before, k);
        lemma_covers_next_row(x, y, rows, r, k);
    }
    if collides(mid, x, y + r, one) {
        let k = choose|k: int|
            0 <= k < mid.len() && #[trigger] mid[k] && sprite_flips(x, y + r, one, k);
        lemma_covers_next_row(x, y, rows, r, k);
        assert(pixels[k]);
    }
}

/// The 64 by 32 grid of pixels, row by row from the top.
pub struct Display {
    pixels: [bool; 2048],
}

impl View for Display {
    type V = Seq<bool>;

    closed spec fn view(&self) -> Seq<bool> {
        self.pixels@
    }
}

impl Display {
    /// Every surface has exactly `DISPLAY_SIZE` pixels.
    pub proof fn lemma_size(&self)
        ensures
            self@.len() == DISPLAY_SIZE,
    {
    }

    /// A surface with every pixel unlit.
    pub fn new() -> (d: Display)
        ensures
            d@ == blank(),
    {
        let d = Display { pixels: [false; 2048] };
        assert(d@ =~= blank());
        d
    }

    /// Unlights every pixel.
    pub fn clear(&mut self)
        ensures
            final(self)@ == blank(),
    {
        self.pixels = [false; 2048];
        assert(self@ =~= blank());
    }

    /// Whether the pixel at column `col`, row `row` is lit. Coordinates
    /// beyond an edge wrap round to the other.
    pub fn pixel(&self, col: u8, row: u8) -> (lit: bool)
        ensures
            lit == self@[pixel_index(col as int, row as int)],
    {
        self.pixels[(row as usize % 32) * 64 + (col as usize % 64)]
    }

    /// Draws one sprite row at column `col`, row `row`: flips the pixel under
    /// each set bit of `bits`, leftmost bit first, wrapping round the right
    /// edge. Returns whether a lit pixel was turned off.
    fn draw_row(&mut self, col: u8, row: usize, bits: u8) -> (hit: bool)
        ensures
            final(self)@ == draw_spec(old(self)@, col as int, row as int, seq![bits]),
            hit == collides(old(self)@, col as int, row as int, seq![bits]),
    {
        let base: usize = (row % 32) * 64;
        let ghost x = col as int;
        let ghost y = row as int;
        let mut hit = false;
        let mut c: u8 = 0;
        while c < 8
            invariant
                c <= 8,
                x == col,
                y == row,
                base == (row as int % 32) * 64,
                forall|k: int|
                    0 <= k < 2048 ==> #[trigger] self@[k] == (old(self)@[k] != row_prefix_flips(
                        x,
                        y,
                        bits,
                        c as int,
                        k,
                    )),
                hit == exists|k: int|
                    0 <= k < 2048 && #[trigger] old(self)@[k] && row_prefix_flips(
                        x,
                        y,
                        bits,
                        c as int,
                        k,
                    ),
            decreases 8 - c,
        {
            let at: usize = base + (col as usize + c as usize) % 64;
            let ghost was_hit = hit;
            let ghost before = self@;
            proof {
                lemma_row_prefix_step(x, y, bits, c as int, at as int);
            }
            let set: bool = (bits >> (7 - c)) & 1 == 1;
            if set {
                if self.pixels[at] {
                    hit = true;
                }
                self.pixels[at] = !self.pixels[at];
            }
            assert(self@ == if set {
                before.update(at as int, !before[at as int])
            } else {
                before
            });
            assert forall|k: int| 0 <= k < 2048 implies #[trigger] self@[k] == (old(self)@[k]
                != row_prefix_flips(x, y, bits, c + 1, k)) by {
                lemma_row_prefix_step(x, y, bits, c as int, k);
            }
            assert(hit == exists|k: int|
                0 <= k < 2048 && #[trigger] old(self)@[k] && row_prefix_flips(x, y, bits, c + 1, k))
                by {
                if was_hit {
                    let k = choose|k: int|
                        0 <= k < 2048 && #[trigger] old(self)@[k] && row_prefix_flips(
                            x,
                            y,
                            bits,
                            c as int,
                            k,
                        );
                    lemma_row_prefix_step(x, y, bits, c as int, k);
                }
                if hit && !was_hit {
                    assert(old(self)@[at as int]);
                }
                if exists|k: int|
                    0 <= k < 2048 && #[trigger] old(self)@[k] && row_prefix_flips(
                        x,
                        y,
                        bits,
                        c + 1,
                        k,
                    ) {
                    let k = choose|k: int|
                        0 <= k < 2048 && #[trigger] old(self)@[k] && row_prefix_flips(
                            x,
                            y,
                            bits,
                            c + 1,
                            k,
                        );
                    lemma_row_prefix_step(x, y, bits, c as int, k);
                }
            }
            c += 1;
        }
        assert(self@ =~= draw_spec(old(self)@, x, y, seq![bits]));
        hit
    }

    /// Draws the sprite `rows`, top row first, with its top left corner at
    /// column `col`, row `row`: every pixel under a set pixel of the sprite
    /// is flipped, wrapping round the right and the bottom edge. Returns
    /// whether a lit pixel was turned off. A sprite is no taller than the
    /// surface.
    pub fn draw_sprite(&mut self, col: u8, row: u8, rows: &[u8]) -> (hit: bool)
        requires
            rows@.len() <= DISPLAY_HEIGHT,
        ensures
            final(self)@ == draw_spec(old(self)@, col as int, row as int, rows@),
            hit == collides(old(self)@, col as int, row as int, rows@),
    {
        let n = rows.len();
        let mut hit = false;
        let mut r: usize = 0;
        assert(self@ =~= draw_spec(old(self)@, col as int, row as int, rows@.take(0)));
        while r < n
            invariant
                r <= n,
                n == rows@.len(),
                n <= 32,
                self@.len() == 2048,
                old(self)@.len() == 2048,
                self@ == draw_spec(old(self)@, col as int, row as int, rows@.take(r as int)),
                hit == collides(old(self)@, col as int, row as int, rows@.take(r as int)),
            decreases n - r,
        {
            proof {
                lemma_draw_next_row(old(self)@, col as int, row as int, rows@, r as int);
            }
            let row_hit = self.draw_row(col, row as usize + r, rows[r]);
            hit = hit || row_hit;
            r += 1;
        }
        assert(rows@.take(n as int) =~= rows@);
        hit
    }
}

} // verus!
