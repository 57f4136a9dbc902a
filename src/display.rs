//! The monochrome framebuffer, sprites, and the plain geometry that a
//! renderer lays its panels out with.
use vstd::prelude::*;

verus! {

/// How many screen pixels wide and high one virtual pixel is drawn.
pub const CHIP8_SCALE_FACTOR: u32 = 4;
/// The width of the display in virtual pixels.
pub const CHIP8_WIDTH_BEFORE_SF: u32 = 128;
/// The height of the display in virtual pixels.
pub const CHIP8_HEIGHT_BEFORE_SF: u32 = 64;

/// A graphical sprite: up to 15 rows of eight pixels, most significant bit
/// leftmost, drawn with its top left corner at (x, y).
#[derive(Debug, Clone)]
pub struct Sprite {
    /// The x-coordinate of the top left pixel.
    pub x: u32,
    /// The y-coordinate of the top left pixel.
    pub y: u32,
    /// Each byte is one row of eight pixels.
    pub rows: Vec<u8>,
}

impl Sprite {
    /// A sprite with a copy of the rows `r` at (locationx, locationy).
    pub fn new(r: &Vec<u8>, locationx: u32, locationy: u32) -> (s: Self)
        ensures
            s.x == locationx,
            s.y == locationy,
            s.rows@ == r@,
    {
        let mut rows: Vec<u8> = Vec::new();
        let mut i: usize = 0;
        while i < r.len()
            invariant
                i <= r@.len(),
                rows@ == r@.subrange(0, i as int),
            decreases r@.len() - i,
        {
            rows.push(r[i]);
            i += 1;
            assert(rows@ =~= r@.subrange(0, i as int));
        }
        assert(rows@ =~= r@);
        Sprite { x: locationx, y: locationy, rows }
    }
}

/// The colour of a virtual pixel.
#[derive(Debug, Clone, Copy, PartialEq, Eq, Structural)]
pub enum Pxcolor {
    /// Sprite colour: the pixel is on.
    Black,
    /// Background colour: the pixel is off.
    White,
}

/// A virtual pixel: its place on the scaled screen and its colour.
#[derive(Debug, Clone, Copy, PartialEq, Eq, Structural)]
pub struct Pixel {
    /// The x-location of this pixel on the scaled screen.
    pub x: u32,
    /// The y-location of this pixel on the scaled screen.
    pub y: u32,
    /// The colour of this pixel.
    pub value: Pxcolor,
}

/// The colour of two colours combined by exclusive or: black where exactly
/// one of them is black.
pub open spec fn xor_spec(a: Pxcolor, b: Pxcolor) -> Pxcolor {
    if (a is Black) != (b is Black) {
        Pxcolor::Black
    } else {
        Pxcolor::White
    }
}

impl Pixel {
    /// An unlit pixel at virtual position (prescaled_x, prescaled_y).
    pub fn new(prescaled_x: u32, prescaled_y: u32) -> (p: Self)
        requires
            prescaled_x as int * CHIP8_SCALE_FACTOR as int <= u32::MAX,
            prescaled_y as int * CHIP8_SCALE_FACTOR as int <= u32::MAX,
        ensures
            p.x == prescaled_x * CHIP8_SCALE_FACTOR,
            p.y == prescaled_y * CHIP8_SCALE_FACTOR,
            p.value == Pxcolor::White,
    {
        Pixel {
            x: prescaled_x * CHIP8_SCALE_FACTOR,
            y: prescaled_y * CHIP8_SCALE_FACTOR,
            value: Pxcolor::White,
        }
    }

    /// Combines two colours by exclusive or.
    pub fn xor(a: Pxcolor, b: Pxcolor) -> (r: Pxcolor)
        ensures
            r == xor_spec(a, b),
    {
        match a {
            Pxcolor::Black => match b {
                Pxcolor::Black => Pxcolor::White,
                Pxcolor::White => Pxcolor::Black,
            },
            Pxcolor::White => match b {
                Pxcolor::Black => Pxcolor::Black,
                Pxcolor::White => Pxcolor::White,
            },
        }
    }
}

/// Bit `k` of a sprite, counting rows top to bottom and, within a row,
/// from the most significant bit.
pub open spec fn sprite_bit(rows: Seq<u8>, k: int) -> bool {
    (rows[k / 8] >> (7 - k % 8) as u8) & 1u8 == 1u8
}

/// The framebuffer index that bit `k` of a sprite at (sx, sy) lands on,
/// wrapping round both edges of a `w` by `h` display.
pub open spec fn bit_index(w: int, h: int, sx: int, sy: int, k: int) -> int {
    let x = (sx % w + k % 8) % w;
    let y = (sy % h + k / 8) % h;
    y * w + x
}

/// The framebuffer and the collision flag after the first `k` bits of a
/// sprite have been drawn, each one in turn: a set bit flips its pixel,
/// and a collision is a set bit that lands on a lit pixel.
pub open spec fn draw_prefix(
    fb: Seq<bool>,
    w: int,
    h: int,
    sx: int,
    sy: int,
    rows: Seq<u8>,
    k: nat,
) -> (Seq<bool>, bool)
    decreases k,
{
    if k == 0 {
        (fb, false)
    } else {
        let prev = draw_prefix(fb, w, h, sx, sy, rows, (k - 1) as nat);
        let idx = bit_index(w, h, sx, sy, k - 1);
        let bit = sprite_bit(rows, k - 1);
        (prev.0.update(idx, prev.0[idx] != bit), prev.1 || (bit && prev.0[idx]))
    }
}

/// The framebuffer and the collision flag after drawing a whole sprite.
pub open spec fn draw_sprite_spec(
    fb: Seq<bool>,
    w: int,
    h: int,
    sx: int,
    sy: int,
    rows: Seq<u8>,
) -> (Seq<bool>, bool) {
    draw_prefix(fb, w, h, sx, sy, rows, (8 * rows.len()) as nat)
}

/// Every sprite bit lands inside the framebuffer.
pub proof fn lemma_bit_index_in_grid(w: int, h: int, sx: int, sy: int, k: int)
    requires
        w > 0,
        h > 0,
    ensures
        0 <= bit_index(w, h, sx, sy, k) < w * h,
{
    let x = (sx % w + k % 8) % w;
    let y = (sy % h + k / 8) % h;
    lemma_index_in_grid(w, h, x, y);
    assert(h * w == w * h) by (nonlinear_arith);
}

/// A grid of virtual pixels, row after row.
#[derive(Debug, Clone)]
pub struct PixelGrid {
    /// Number of rows of pixels.
    pub nrows: u32,
    /// Number of columns of pixels.
    pub ncols: u32,
    /// The pixels, row after row.
    pub pixels: Vec<Pixel>,
}

impl View for PixelGrid {
    type V = Seq<bool>;

    /// Which pixels are on, row after row.
    open spec fn view(&self) -> Seq<bool> {
        Seq::new(self.pixels@.len(), |i: int| self.pixels@[i].value is Black)
    }
}

/// A pixel of a `w` by `h` grid has its index inside the grid.
pub proof fn lemma_index_in_grid(w: int, h: int, x: int, y: int)
    requires
        0 <= x < w,
        0 <= y < h,
    ensures
        0 <= y * w + x < h * w,
{
    assert(y * w + x < h * w) by (nonlinear_arith)
        requires 0 <= x < w, 0 <= y < h;
    assert(0 <= y * w) by (nonlinear_arith)
        requires 0 <= x < w, 0 <= y < h;
}

impl PixelGrid {
    /// One pixel for every row and column.
    pub open spec fn wf(&self) -> bool {
        self.pixels@.len() == self.nrows as int * self.ncols as int
    }

    /// Every pixel keeps its place on the scaled screen.
    pub open spec fn same_layout(&self, other: &PixelGrid) -> bool {
        &&& self.nrows == other.nrows
        &&& self.ncols == other.ncols
        &&& self.pixels@.len() == other.pixels@.len()
        &&& forall|i: int|
            0 <= i < self.pixels@.len() ==> (#[trigger] self.pixels@[i]).x == other.pixels@[i].x
                && self.pixels@[i].y == other.pixels@[i].y
    }

    /// A grid of `nrows` by `ncols` unlit pixels.
    pub fn new(nrows: u32, ncols: u32) -> (g: Self)
        requires
            nrows as int * ncols as int <= usize::MAX,
            nrows as int * CHIP8_SCALE_FACTOR as int <= u32::MAX,
            ncols as int * CHIP8_SCALE_FACTOR as int <= u32::MAX,
        ensures
            g.wf(),
            g.nrows == nrows,
            g.ncols == ncols,
            g@ == Seq::new((nrows as int * ncols as int) as nat, |i: int| false),
            forall|r: int, c: int|
                0 <= r < nrows && 0 <= c < ncols ==> (#[trigger] g.pixels@[r * ncols + c]).x == c
                    * CHIP8_SCALE_FACTOR && g.pixels@[r * ncols + c].y == r * CHIP8_SCALE_FACTOR,
    {
        let mut pixels: Vec<Pixel> = Vec::new();
        let mut r: u32 = 0;
        while r < nrows
            invariant
                r <= nrows,
                nrows as int * ncols as int <= usize::MAX,
                nrows as int * CHIP8_SCALE_FACTOR as int <= u32::MAX,
                ncols as int * CHIP8_SCALE_FACTOR as int <= u32::MAX,
                pixels@.len() == r as int * ncols as int,
                forall|i: int| 0 <= i < pixels@.len() ==> (#[trigger] pixels@[i]).value is White,
                forall|r2: int, c2: int|
                    0 <= r2 < r && 0 <= c2 < ncols ==> (#[trigger] pixels@[r2 * ncols + c2]).x
                        == c2 * CHIP8_SCALE_FACTOR && pixels@[r2 * ncols + c2].y == r2
                        * CHIP8_SCALE_FACTOR,
            decreases nrows - r,
        {
            let mut c: u32 = 0;
            while c < ncols
                invariant
                    r < nrows,
                    c <= ncols,
                    nrows as int * ncols as int <= usize::MAX,
                    nrows as int * CHIP8_SCALE_FACTOR as int <= u32::MAX,
                    ncols as int * CHIP8_SCALE_FACTOR as int <= u32::MAX,
                    pixels@.len() == r as int * ncols as int + c,
                    forall|i: int| 0 <= i < pixels@.len() ==> (#[trigger] pixels@[i]).value is White,
                    forall|r2: int, c2: int|
                        0 <= r2 < r && 0 <= c2 < ncols ==> (#[trigger] pixels@[r2 * ncols + c2]).x
                            == c2 * CHIP8_SCALE_FACTOR && pixels@[r2 * ncols + c2].y == r2
                            * CHIP8_SCALE_FACTOR,
                    forall|c2: int|
                        0 <= c2 < c ==> (#[trigger] pixels@[r * ncols + c2]).x == c2
                            * CHIP8_SCALE_FACTOR && pixels@[r * ncols + c2].y == r
                            * CHIP8_SCALE_FACTOR,
                decreases ncols - c,
            {
                proof {
                    assert(r as int * ncols as int + c < nrows as int * ncols as int) by (nonlinear_arith)
                        requires r < nrows, c < ncols;
                }
                let ghost before = pixels@;
                pixels.push(Pixel::new(c, r));
                proof {
                    assert forall|r2: int, c2: int|
                        0 <= r2 < r && 0 <= c2 < ncols implies (#[trigger] pixels@[r2 * ncols + c2]).x
                            == c2 * CHIP8_SCALE_FACTOR && pixels@[r2 * ncols + c2].y == r2
                            * CHIP8_SCALE_FACTOR by {
                        assert(r2 * ncols + c2 < r as int * ncols as int) by (nonlinear_arith)
                            requires 0 <= r2 < r, 0 <= c2 < ncols;
                        assert(0 <= r2 * ncols) by (nonlinear_arith)
                            requires 0 <= r2, 0 <= ncols;
                        assert(pixels@[r2 * ncols + c2] == before[r2 * ncols + c2]);
                    }
                }
                c += 1;
            }
            proof {
                assert forall|r2: int, c2: int|
                    0 <= r2 < r + 1 && 0 <= c2 < ncols implies (#[trigger] pixels@[r2 * ncols + c2]).x
                        == c2 * CHIP8_SCALE_FACTOR && pixels@[r2 * ncols + c2].y == r2
                        * CHIP8_SCALE_FACTOR by {
                    if r2 == r {
                    }
                }
                assert((r + 1) as int * ncols as int == r as int * ncols as int + ncols) by (nonlinear_arith);
            }
            r += 1;
        }
        let g = PixelGrid { nrows, ncols, pixels };
        assert(g@ =~= Seq::new((nrows as int * ncols as int) as nat, |i: int| false));
        g
    }

    /// Turns every pixel off.
    pub fn clear(&mut self)
        ensures
            final(self).same_layout(old(self)),
            final(self)@ == Seq::new(old(self)@.len(), |i: int| false),
    {
        let mut i: usize = 0;
        while i < self.pixels.len()
            invariant
                i <= self.pixels@.len(),
                self.same_layout(old(self)),
                forall|j: int| 0 <= j < i ==> (#[trigger] self.pixels@[j]).value is White,
            decreases self.pixels@.len() - i,
        {
            let mut p = self.pixels[i];
            p.value = Pxcolor::White;
            self.pixels.set(i, p);
            i += 1;
        }
        assert(self@ =~= Seq::new(old(self)@.len(), |i: int| false));
    }

    /// XOR-draws a sprite, wrapping round both edges of the grid, and
    /// returns whether any lit pixel was turned off.
    pub fn add_sprite(&mut self, s: &Sprite) -> (collision: bool)
        requires
            old(self).wf(),
            old(self).nrows > 0,
            old(self).ncols > 0,
            s.rows@.len() * 8 <= usize::MAX,
        ensures
            final(self).wf(),
            final(self).same_layout(old(self)),
            (final(self)@, collision) == draw_sprite_spec(
                old(self)@,
                old(self).ncols as int,
                old(self).nrows as int,
                s.x as int,
                s.y as int,
                s.rows@,
            ),
    {
        let w = self.ncols as u64;
        let h = self.nrows as u64;
        let ghost fb0 = self@;
        let total: usize = s.rows.len() * 8;
        let mut collision = false;
        let mut k: usize = 0;
        while k < total
            invariant
                total == 8 * s.rows@.len(),
                k <= total,
                w == self.ncols,
                h == self.nrows,
                w > 0,
                h > 0,
                self.wf(),
                self.same_layout(old(self)),
                (self@, collision) == draw_prefix(
                    fb0,
                    w as int,
                    h as int,
                    s.x as int,
                    s.y as int,
                    s.rows@,
                    k as nat,
                ),
            decreases total - k,
        {
            let len = self.pixels.len();
            let row: usize = k / 8;
            let col: u8 = (k % 8) as u8;
            let x: u64 = ((s.x as u64) % w + col as u64) % w;
            let y: u64 = ((s.y as u64) % h + row as u64 % h) % h;
            proof {
                assert(((s.y as int) % (h as int) + (row as int) % (h as int)) % (h as int)
                    == ((s.y as int) % (h as int) + row as int) % (h as int)) by {
                    vstd::arithmetic::div_mod::lemma_add_mod_noop(
                        (s.y as int) % (h as int), row as int, h as int);
                    vstd::arithmetic::div_mod::lemma_mod_twice(s.y as int, h as int);
                }
                lemma_index_in_grid(w as int, h as int, x as int, y as int);
                assert(len == h as int * w as int);
            }
            let idx: usize = (y * w + x) as usize;
            let bit: bool = (s.rows[row] >> (7 - col)) & 1u8 == 1u8;
            let mut p = self.pixels[idx];
            let lit = p.value == Pxcolor::Black;
            if bit && lit {
                collision = true;
            }
            let incoming = if bit { Pxcolor::Black } else { Pxcolor::White };
            p.value = Pixel::xor(incoming, p.value);
            self.pixels.set(idx, p);
            k += 1;
            proof {
                let ghost fb = self@;
                assert(idx as int == bit_index(w as int, h as int, s.x as int, s.y as int, k - 1));
                assert(bit == sprite_bit(s.rows@, k - 1));
                let prev = draw_prefix(fb0, w as int, h as int, s.x as int, s.y as int, s.rows@, (k - 1) as nat);
                assert(fb =~= prev.0.update(idx as int, prev.0[idx as int] != bit));
            }
        }
        collision
    }
}

/// A point on the screen.
#[derive(Debug, Clone, Copy, PartialEq, Eq, Structural)]
pub struct Point32 {
    pub x: u32,
    pub y: u32,
}

/// A rectangle on the screen, given by two corners.
#[derive(Debug, Clone, Copy, PartialEq, Eq, Structural)]
pub struct Rectangle {
    /// Top left corner.
    pub topleft: Point32,
    /// Bottom right corner.
    pub bottomright: Point32,
}

impl Rectangle {
    /// The corners are in order.
    pub open spec fn wf(&self) -> bool {
        self.topleft.x <= self.bottomright.x && self.topleft.y <= self.bottomright.y
    }

    /// The height of the rectangle.
    pub fn height(&self) -> (r: u32)
        requires
            self.wf(),
        ensures
            r == self.bottomright.y - self.topleft.y,
    {
        self.bottomright.y - self.topleft.y
    }

    /// The width of the rectangle.
    pub fn width(&self) -> (r: u32)
        requires
            self.wf(),
        ensures
            r == self.bottomright.x - self.topleft.x,
    {
        self.bottomright.x - self.topleft.x
    }
}

/// Which way an arrow points.
#[derive(Debug, Clone, Copy, PartialEq, Eq, Structural)]
pub enum ArrowDirection {
    Left,
    Right,
}

/// The placement of a panel: its size in pixels and its top left corner.
#[derive(Debug, Clone, Copy, PartialEq, Eq, Structural)]
pub struct PanelData {
    /// Height of the panel in pixels.
    pub height_npixels: u32,
    /// Width of the panel in pixels.
    pub width_npixels: u32,
    /// Top left corner of the panel.
    pub origin: Point32,
}

impl PanelData {
    /// A panel of the given size at `origin`.
    pub fn new(origin: Point32, height: u32, width: u32) -> (r: Self)
        ensures
            r == (PanelData { height_npixels: height, width_npixels: width, origin }),
    {
        PanelData { height_npixels: height, width_npixels: width, origin: origin }
    }
}

} // verus!
