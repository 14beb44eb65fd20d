use vstd::prelude::*;

verus! {

/// Width of the screen in pixels.
pub const WIDTH: usize = 64;

/// Height of the screen in pixels.
pub const HEIGHT: usize = 32;

/// Number of pixels on the screen.
pub const PIXELS: usize = 2048;

/// The abstract content of a framebuffer: one flag per pixel, row after row,
/// and whether anything was drawn since the host last read it.
pub struct Screen {
    pub pixels: Seq<bool>,
    pub dirty: bool,
}

/// Index of the pixel at column `x`, row `y`.
pub open spec fn pixel_index(x: int, y: int) -> int {
    y * 64 + x
}

/// Column of the pixel stored at index `k`.
pub open spec fn column_of(k: int) -> int {
    k % 64
}

/// Row of the pixel stored at index `k`.
pub open spec fn row_of(k: int) -> int {
    k / 64
}

/// Bit `c` of a sprite row, counted from the most significant bit.
pub open spec fn row_bit(row: u8, c: int) -> bool {
    (row >> ((7 - c) as u8)) & 1u8 == 1u8
}

/// Whether the sprite `rows`, drawn with its top-left corner at `(x0, y0)`
/// and wrapping around both edges, has a set bit over pixel `k`.
pub open spec fn sprite_covers(rows: Seq<u8>, x0: int, y0: int, k: int) -> bool {
    let r = (row_of(k) - y0) % 32;
    let c = (column_of(k) - x0) % 64;
    r < rows.len() && c < 8 && row_bit(rows[r], c)
}

/// The pixels after XOR-ing the sprite onto `pixels`.
pub open spec fn blit(pixels: Seq<bool>, rows: Seq<u8>, x0: int, y0: int) -> Seq<bool> {
    Seq::new(2048, |k: int| pixels[k] != sprite_covers(rows, x0, y0, k))
}

/// Whether drawing the sprite clears a pixel that was set.
pub open spec fn collides(pixels: Seq<bool>, rows: Seq<u8>, x0: int, y0: int) -> bool {
    exists|k: int| 0 <= k < 2048 && #[trigger] pixels[k] && sprite_covers(rows, x0, y0, k)
}

/// The pixels of a blank screen.
pub open spec fn blank() -> Seq<bool> {
    Seq::new(2048, |k: int| false)
}

/// The 64x32 grid of monochrome pixels the machine draws on.
pub struct FrameBuffer {
    pixels: Vec<bool>,
    dirty: bool,
}

impl View for FrameBuffer {
    type V = Screen;

    closed spec fn view(&self) -> Screen {
        Screen { pixels: self.pixels@, dirty: self.dirty }
    }
}

/// The pixel written by bit `bit` of sprite row `row` is the only one that
/// `sprite_covers` attributes to that row and bit.
proof fn lemma_target(x0: int, y0: int, row: int, bit: int, k: int)
    requires
        0 <= x0,
        0 <= y0,
        0 <= row < 32,
        0 <= bit < 64,
        0 <= k < 2048,
    ensures
        ((row_of(k) - y0) % 32 == row && (column_of(k) - x0) % 64 == bit) <==> k
            == pixel_index((x0 + bit) % 64, (y0 + row) % 32),
{
    let tx = (x0 + bit) % 64;
    let ty = (y0 + row) % 32;
    assert(0 <= tx < 64 && 0 <= ty < 32);
    assert(row_of(pixel_index(tx, ty)) == ty && column_of(pixel_index(tx, ty)) == tx) by {
        vstd::arithmetic::div_mod::lemma_fundamental_div_mod_converse(
            pixel_index(tx, ty),
            64,
            ty,
            tx,
        );
    }
    assert(k == pixel_index(column_of(k), row_of(k))) by {
        vstd::arithmetic::div_mod::lemma_fundamental_div_mod(k, 64);
    }
    assert(0 <= column_of(k) < 64 && 0 <= row_of(k) < 32) by {
        vstd::arithmetic::div_mod::lemma_fundamental_div_mod(k, 64);
    }
    let y = row_of(k);
    let x = column_of(k);
    assert(((y - y0) % 32 == row) <==> y == ty) by {
        vstd::arithmetic::div_mod::lemma_fundamental_div_mod(y - y0, 32);
        vstd::arithmetic::div_mod::lemma_fundamental_div_mod(y0 + row, 32);
        if y == ty {
            vstd::arithmetic::div_mod::lemma_fundamental_div_mod_converse(
                y - y0,
                32,
                -((y0 + row) / 32),
                row,
            );
        }
    }
    assert(((x - x0) % 64 == bit) <==> x == tx) by {
        vstd::arithmetic::div_mod::lemma_fundamental_div_mod(x - x0, 64);
        vstd::arithmetic::div_mod::lemma_fundamental_div_mod(x0 + bit, 64);
        if x == tx {
            vstd::arithmetic::div_mod::lemma_fundamental_div_mod_converse(
                x - x0,
                64,
                -((x0 + bit) / 64),
                bit,
            );
        }
    }
    if k == pixel_index(tx, ty) {
    } else {
        if y == ty && x == tx {
            assert(false);
        }
    }
}

/// Drawing the same sprite at the same place twice restores every pixel,
/// since XOR is its own inverse. The second draw reports a collision
/// exactly when the sprite covers a pixel that was off before the first.
pub proof fn law_draw_twice_restores(pixels: Seq<bool>, rows: Seq<u8>, x0: int, y0: int)
    requires
        pixels.len() == 2048,
    ensures
        blit(blit(pixels, rows, x0, y0), rows, x0, y0) == pixels,
        collides(blit(pixels, rows, x0, y0), rows, x0, y0) == exists|k: int|
            0 <= k < 2048 && !#[trigger] pixels[k] && sprite_covers(rows, x0, y0, k),
{
    let once = blit(pixels, rows, x0, y0);
    assert(blit(once, rows, x0, y0) =~= pixels);
    if collides(once, rows, x0, y0) {
        let k = choose|k: int| 0 <= k < 2048 && #[trigger] once[k] && sprite_covers(rows, x0, y0, k);
        assert(!pixels[k]);
    }
    if exists|k: int| 0 <= k < 2048 && !#[trigger] pixels[k] && sprite_covers(rows, x0, y0, k) {
        let k = choose|k: int| 0 <= k < 2048 && !#[trigger] pixels[k] && sprite_covers(rows, x0, y0, k);
        assert(once[k]);
    }
}

/// Bit `c` (most significant first) of sprite row `r` lands on column
/// `(x0 + c) % 64` and row `(y0 + r) % 32`: a sprite that runs past the
/// right or bottom edge continues at the left or top one.
pub proof fn law_sprite_wraps(pixels: Seq<bool>, rows: Seq<u8>, x0: int, y0: int, r: int, c: int)
    requires
        pixels.len() == 2048,
        rows.len() <= 32,
        0 <= x0,
        0 <= y0,
        0 <= r < rows.len(),
        0 <= c < 8,
    ensures
        ({
            let k = pixel_index((x0 + c) % 64, (y0 + r) % 32);
            &&& 0 <= k < 2048
            &&& blit(pixels, rows, x0, y0)[k] == (pixels[k] != row_bit(rows[r], c))
        }),
{
    let k = pixel_index((x0 + c) % 64, (y0 + r) % 32);
    assert(0 <= k < 2048);
    lemma_target(x0, y0, r, c, k);
}

impl FrameBuffer {
    /// Internal consistency: one flag for every pixel.
    pub open spec fn wf(&self) -> bool {
        self@.pixels.len() == 2048
    }

    /// A blank screen with nothing to repaint.
    pub fn new() -> (r: FrameBuffer)
        ensures
            r.wf(),
            r@.pixels == blank(),
            !r@.dirty,
    {
        let mut pixels: Vec<bool> = Vec::new();
        let mut k: usize = 0;
        while k < PIXELS
            invariant
                k <= 2048,
                pixels@ == Seq::new(k as nat, |j: int| false),
            decreases 2048 - k,
        {
            pixels.push(false);
            k = k + 1;
            assert(pixels@ =~= Seq::new(k as nat, |j: int| false));
        }
        FrameBuffer { pixels, dirty: false }
    }

    /// The state of the pixel at column `x`, row `y`.
    pub fn get(&self, x: usize, y: usize) -> (r: bool)
        requires
            self.wf(),
            x < 64,
            y < 32,
        ensures
            r == self@.pixels[pixel_index(x as int, y as int)],
    {
        self.pixels[y * WIDTH + x]
    }

    /// Inverts the pixel at column `x`, row `y`.
    pub fn toggle(&mut self, x: usize, y: usize)
        requires
            old(self).wf(),
            x < 64,
            y < 32,
        ensures
            final(self).wf(),
            final(self)@.pixels == old(self)@.pixels.update(
                pixel_index(x as int, y as int),
                !old(self)@.pixels[pixel_index(x as int, y as int)],
            ),
            final(self)@.dirty == old(self)@.dirty,
    {
        let k = y * WIDTH + x;
        let p = self.pixels[k];
        self.pixels.set(k, !p);
    }

    /// Turns every pixel off and marks the screen for repainting.
    pub fn clear(&mut self)
        requires
            old(self).wf(),
        ensures
            final(self).wf(),
            final(self)@.pixels == blank(),
            final(self)@.dirty,
    {
        let mut k: usize = 0;
        while k < PIXELS
            invariant
                k <= 2048,
                self.pixels@.len() == 2048,
                forall|j: int| 0 <= j < k ==> !#[trigger] self.pixels@[j],
            decreases 2048 - k,
        {
            self.pixels.set(k, false);
            k = k + 1;
        }
        self.dirty = true;
        assert(self.pixels@ =~= blank());
    }

    /// Reports whether anything was drawn since the last call, and resets
    /// that flag.
    pub fn take_dirty(&mut self) -> (r: bool)
        requires
            old(self).wf(),
        ensures
            final(self).wf(),
            r == old(self)@.dirty,
            final(self)@.pixels == old(self)@.pixels,
            !final(self)@.dirty,
    {
        let r = self.dirty;
        self.dirty = false;
        r
    }

    /// A copy of the pixels, row after row.
    pub fn pixels(&self) -> (r: Vec<bool>)
        requires
            self.wf(),
        ensures
            r@ == self@.pixels,
    {
        self.pixels.clone()
    }

    /// XORs the sprite `rows` onto the screen with its top-left corner at
    /// `(x0, y0)`: row `r`, bit `c` (most significant first) lands on column
    /// `(x0 + c) % 64`, row `(y0 + r) % 32`. Returns whether a set pixel was
    /// cleared, and marks the screen for repainting.
    pub fn draw_sprite(&mut self, x0: u8, y0: u8, rows: &[u8]) -> (collided: bool)
        requires
            old(self).wf(),
            rows@.len() <= 32,
        ensures
            final(self).wf(),
            final(self)@.pixels == blit(old(self)@.pixels, rows@, x0 as int, y0 as int),
            collided == collides(old(self)@.pixels, rows@, x0 as int, y0 as int),
            final(self)@.dirty,
    {
        let ghost old_pixels = self.pixels@;
        let ghost sx = x0 as int;
        let ghost sy = y0 as int;
        let mut collided = false;
        let mut row: usize = 0;
        while row < rows.len()
            invariant
                rows@.len() <= 32,
                row <= rows@.len(),
                sx == x0 as int,
                sy == y0 as int,
                old_pixels.len() == 2048,
                self.pixels@.len() == 2048,
                forall|k: int|
                    0 <= k < 2048 ==> #[trigger] self.pixels@[k] == (old_pixels[k] != (
                    (row_of(k) - sy) % 32 < row && sprite_covers(rows@, sx, sy, k))),
                collided == exists|k: int|
                    0 <= k < 2048 && #[trigger] old_pixels[k] && (row_of(k) - sy) % 32 < row
                        && sprite_covers(rows@, sx, sy, k),
            decreases rows@.len() - row,
        {
            let y = (y0 as usize + row) % HEIGHT;
            let line = rows[row];
            let mut bit: usize = 0;
            while bit < 8
                invariant
                    rows@.len() <= 32,
                    row < rows@.len(),
                    sx == x0 as int,
                    sy == y0 as int,
                    line == rows@[row as int],
                    y == (sy + row) % 32,
                    bit <= 8,
                    old_pixels.len() == 2048,
                    self.pixels@.len() == 2048,
                    forall|k: int|
                        0 <= k < 2048 ==> #[trigger] self.pixels@[k] == (old_pixels[k] != (((
                        row_of(k) - sy) % 32 < row || ((row_of(k) - sy) % 32 == row && (
                        column_of(k) - sx) % 64 < bit)) && sprite_covers(rows@, sx, sy, k))),
                    collided == exists|k: int|
                        0 <= k < 2048 && #[trigger] old_pixels[k] && ((row_of(k) - sy) % 32 < row
                            || ((row_of(k) - sy) % 32 == row && (column_of(k) - sx) % 64 < bit))
                            && sprite_covers(rows@, sx, sy, k),
                decreases 8 - bit,
            {
                let x = (x0 as usize + bit) % WIDTH;
                let k = y * WIDTH + x;
                let ghost before = self.pixels@;
                let set = (line >> ((7 - bit) as u8)) & 1u8 == 1u8;
                proof {
                    assert forall|j: int| 0 <= j < 2048 implies (((row_of(j) - sy) % 32 == row
                        && (column_of(j) - sx) % 64 == bit) <==> j == k) by {
                        lemma_target(sx, sy, row as int, bit as int, j);
                    }
                    assert(sprite_covers(rows@, sx, sy, k as int) == set);
                }
                let p = self.pixels[k];
                if p && set {
                    collided = true;
                }
                self.pixels.set(k, p != set);
                bit = bit + 1;
                proof {
                    if collided {
                        if p && set {
                            assert(old_pixels[k as int]);
                        }
                    }
                }
            }
            row = row + 1;
        }
        self.dirty = true;
        assert(self.pixels@ =~= blit(old_pixels, rows@, sx, sy));
        collided
    }
}

} // verus!
