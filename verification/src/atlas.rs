//! The pixel grid of a skin atlas, its mathematical model and the block
//! operations on it.

use crate::geometry::Rect;
use vstd::arithmetic::div_mod::lemma_fundamental_div_mod;
use vstd::arithmetic::div_mod::lemma_fundamental_div_mod_converse;
use vstd::prelude::*;

verus! {

/// One RGBA pixel, eight bits a channel.
#[derive(Clone, Copy, Debug, PartialEq, Eq, Structural)]
pub struct Pixel {
    pub r: u8,
    pub g: u8,
    pub b: u8,
    pub a: u8,
}

/// The model of an atlas: `height` rows of `width` pixels each.
#[verifier::ext_equal]
pub struct Grid {
    pub width: nat,
    pub height: nat,
    pub rows: Seq<Seq<Pixel>>,
}

impl Grid {
    /// There are `height` rows and each has `width` pixels.
    pub open spec fn wf(self) -> bool {
        &&& self.rows.len() == self.height
        &&& forall|y: int| 0 <= y < self.height ==> (#[trigger] self.rows[y]).len() == self.width
    }

    /// The pixel in column `x` of row `y`.
    pub open spec fn at(self, x: int, y: int) -> Pixel {
        self.rows[y][x]
    }

    /// The grid whose rows are cut, one after the other, from `cells`.
    pub open spec fn from_cells(width: nat, height: nat, cells: Seq<Pixel>) -> Grid {
        Grid {
            width,
            height,
            rows: Seq::new(height, |y: int| Seq::new(width, |x: int| cells[y * width + x])),
        }
    }

    /// The pixels in row-major order.
    pub open spec fn cells(self) -> Seq<Pixel> {
        Seq::new(
            self.width * self.height,
            |i: int| self.rows[i / (self.width as int)][i % (self.width as int)],
        )
    }

    /// Whether `r` lies inside the grid.
    pub open spec fn contains(self, r: Rect) -> bool {
        r.within(self.width as int, self.height as int)
    }

    /// The block that `r` covers, as a grid of its own.
    pub open spec fn crop(self, r: Rect) -> Grid {
        Grid {
            width: r.width as nat,
            height: r.height as nat,
            rows: Seq::new(
                r.height as nat,
                |y: int| Seq::new(r.width as nat, |x: int| self.at(r.x + x, r.y + y)),
            ),
        }
    }

    /// The grid with `block` written over it, the block's corner at
    /// `(x0, y0)`.
    pub open spec fn blit(self, block: Grid, x0: int, y0: int) -> Grid {
        Grid {
            width: self.width,
            height: self.height,
            rows: Seq::new(
                self.height,
                |y: int|
                    Seq::new(
                        self.width,
                        |x: int|
                            if x0 <= x < x0 + block.width && y0 <= y < y0 + block.height {
                                block.at(x - x0, y - y0)
                            } else {
                                self.at(x, y)
                            },
                    ),
            ),
        }
    }

    /// The grid with the pixel at `(x, y)` replaced by `p`.
    pub open spec fn put(self, x: int, y: int, p: Pixel) -> Grid {
        Grid {
            width: self.width,
            height: self.height,
            rows: self.rows.update(y, self.rows[y].update(x, p)),
        }
    }
}

/// The pixel `(x, y)` of a row-major buffer that is `width` wide.
pub open spec fn cell(cells: Seq<Pixel>, width: int, x: int, y: int) -> Pixel {
    cells[y * width + x]
}

/// A pixel of a `width` wide grid has its place in the row-major buffer.
pub proof fn lemma_cell_index(width: int, height: int, x: int, y: int)
    requires
        0 <= x < width,
        0 <= y < height,
    ensures
        0 <= y * width + x < width * height,
        (y * width + x) / width == y,
        (y * width + x) % width == x,
{
    assert(y * width + x < width * height) by (nonlinear_arith)
        requires
            0 <= x < width,
            0 <= y < height,
    ;
    assert(0 <= y * width) by (nonlinear_arith)
        requires
            0 <= y,
            0 < width,
    ;
    lemma_fundamental_div_mod_converse(y * width + x, width, y, x);
}

/// A place in the row-major buffer is a pixel of the grid.
pub proof fn lemma_cell_of_index(width: int, height: int, i: int)
    requires
        0 <= i < width * height,
        0 < width,
    ensures
        0 <= i % width < width,
        0 <= i / width < height,
        (i / width) * width + i % width == i,
{
    lemma_fundamental_div_mod(i, width);
    let q = i / width;
    let r = i % width;
    assert(q * width == width * q) by (nonlinear_arith);
    assert(0 <= q < height) by (nonlinear_arith)
        requires
            0 <= r < width,
            i == width * q + r,
            0 <= i < width * height,
    ;
}

/// The area of a grid with `u32` sides fits in 64 bits.
pub proof fn lemma_area_fits(width: int, height: int)
    by (nonlinear_arith)
    requires
        0 <= width <= u32::MAX,
        0 <= height <= u32::MAX,
    ensures
        0 <= width * height <= 0xFFFF_FFFE_0000_0001,
{
}

/// A grid of RGBA pixels, stored row by row.
pub struct Atlas {
    width: u32,
    height: u32,
    pixels: Vec<Pixel>,
}

impl View for Atlas {
    type V = Grid;

    closed spec fn view(&self) -> Grid {
        Grid::from_cells(self.width as nat, self.height as nat, self.pixels@)
    }
}

impl Clone for Atlas {
    /// A copy with the same size and the same pixels.
    fn clone(&self) -> (copy: Atlas)
        ensures
            copy@ == self@,
    {
        proof {
            use_type_invariant(self);
        }
        let pixels = self.pixels.clone();
        Atlas { width: self.width, height: self.height, pixels }
    }
}

impl Atlas {
    #[verifier::type_invariant]
    spec fn inv(self) -> bool {
        self.pixels.len() == self.width * self.height
    }

    /// The model of an atlas is well formed, and its sides fit in 32
    /// bits.
    pub proof fn lemma_view_wf(self)
        ensures
            self@.wf(),
            self@.width <= u32::MAX,
            self@.height <= u32::MAX,
    {
    }

    /// The atlas of the given size whose pixels are `pixels`, row by row;
    /// `None` where the number of pixels is not `width * height`.
    pub fn from_pixels(width: u32, height: u32, pixels: Vec<Pixel>) -> (r: Option<Atlas>)
        ensures
            r is Some <==> pixels.len() == width * height,
            r matches Some(a) ==> a@ == Grid::from_cells(width as nat, height as nat, pixels@),
    {
        proof {
            lemma_area_fits(width as int, height as int);
        }
        let area: u64 = (width as u64) * (height as u64);
        if pixels.len() as u64 == area {
            Some(Atlas { width, height, pixels })
        } else {
            None
        }
    }

    /// The number of columns.
    pub fn width(&self) -> (w: u32)
        ensures
            w == self@.width,
    {
        self.width
    }

    /// The number of rows.
    pub fn height(&self) -> (h: u32)
        ensures
            h == self@.height,
    {
        self.height
    }

    /// The pixels, row by row.
    pub fn pixels(&self) -> (cells: &Vec<Pixel>)
        ensures
            cells@ == self@.cells(),
    {
        proof {
            use_type_invariant(self);
            let w = self.width as int;
            let h = self.height as int;
            assert forall|i: int| 0 <= i < w * h implies self.pixels@[i] == #[trigger] self@.cells()[i] by {
                lemma_cell_of_index(w, h, i);
            }
        }
        &self.pixels
    }

    /// The pixel in column `x` of row `y`.
    pub fn get_pixel(&self, x: u32, y: u32) -> (p: Pixel)
        requires
            x < self@.width,
            y < self@.height,
        ensures
            p == self@.at(x as int, y as int),
    {
        proof {
            use_type_invariant(self);
            lemma_cell_index(self.width as int, self.height as int, x as int, y as int);
        }
        self.pixels[(y as usize) * (self.width as usize) + (x as usize)]
    }

    /// The atlas with the pixel in column `x` of row `y` replaced by `p`.
    pub fn put_pixel(self, x: u32, y: u32, p: Pixel) -> (out: Atlas)
        requires
            x < self@.width,
            y < self@.height,
        ensures
            out@ == self@.put(x as int, y as int, p),
    {
        proof {
            use_type_invariant(&self);
            lemma_cell_index(self.width as int, self.height as int, x as int, y as int);
        }
        let ghost before = self@;
        let Atlas { width, height, mut pixels } = self;
        pixels.set((y as usize) * (width as usize) + (x as usize), p);
        let out = Atlas { width, height, pixels };
        proof {
            let w = width as int;
            let h = height as int;
            let want = before.put(x as int, y as int, p);
            assert forall|j: int| 0 <= j < h implies #[trigger] out@.rows[j] =~= want.rows[j] by {
                assert forall|i: int| 0 <= i < w implies out@.rows[j][i] == want.rows[j][i] by {
                    lemma_cell_index(w, h, i, j);
                }
            }
        }
        out
    }

    /// A copy of the block that `r` covers.
    pub fn crop(&self, r: Rect) -> (block: Atlas)
        requires
            self@.contains(r),
        ensures
            block@ == self@.crop(r),
    {
        let ghost bw = r.width as int;
        let ghost bh = r.height as int;
        let mut pixels: Vec<Pixel> = Vec::new();
        let mut y: u32 = 0;
        while y < r.height
            invariant
                y <= r.height,
                bw == r.width,
                bh == r.height,
                self@.contains(r),
                pixels.len() == y * bw,
                forall|k: int|
                    0 <= k < pixels.len() ==> #[trigger] pixels@[k] == self@.at(
                        r.x + k % bw,
                        r.y + k / bw,
                    ),
            decreases r.height - y,
        {
            let mut x: u32 = 0;
            while x < r.width
                invariant
                    x <= r.width,
                    y < r.height,
                    bw == r.width,
                    bh == r.height,
                    self@.contains(r),
                    pixels.len() == y * bw + x,
                    forall|k: int|
                        0 <= k < pixels.len() ==> #[trigger] pixels@[k] == self@.at(
                            r.x + k % bw,
                            r.y + k / bw,
                        ),
                decreases r.width - x,
            {
                let p = self.get_pixel(r.x + x, r.y + y);
                proof {
                    lemma_cell_index(bw, bh, x as int, y as int);
                }
                pixels.push(p);
                x += 1;
            }
            proof {
                assert((y + 1) * bw == y * bw + bw) by (nonlinear_arith);
            }
            y += 1;
        }
        proof {
            assert(bh * bw == bw * bh) by (nonlinear_arith);
        }
        let block = Atlas { width: r.width, height: r.height, pixels };
        proof {
            let want = self@.crop(r);
            assert forall|j: int| 0 <= j < bh implies #[trigger] block@.rows[j] =~= want.rows[j] by {
                assert forall|i: int| 0 <= i < bw implies block@.rows[j][i] == want.rows[j][i] by {
                    lemma_cell_index(bw, bh, i, j);
                }
            }
        }
        block
    }

    /// The atlas with `block` written over it, the block's corner at
    /// `(x0, y0)`.
    pub fn blit(self, block: &Atlas, x0: u32, y0: u32) -> (out: Atlas)
        requires
            x0 + block@.width <= self@.width,
            y0 + block@.height <= self@.height,
        ensures
            out@ == self@.blit(block@, x0 as int, y0 as int),
    {
        proof {
            use_type_invariant(&self);
            use_type_invariant(block);
        }
        let ghost before = self@;
        let ghost w = self.width as int;
        let ghost h = self.height as int;
        let Atlas { width, height, mut pixels } = self;
        let bw = block.width();
        let bh = block.height();
        let mut y: u32 = 0;
        while y < bh
            invariant
                y <= bh,
                bw == block@.width,
                bh == block@.height,
                w == width == before.width,
                h == height == before.height,
                x0 + bw <= w,
                y0 + bh <= h,
                pixels.len() == w * h,
                forall|i: int, j: int|
                    0 <= i < w && 0 <= j < h ==> #[trigger] cell(pixels@, w, i, j) == (if x0 <= i
                        < x0 + bw && y0 <= j < y0 + y {
                        block@.at(i - x0, j - y0)
                    } else {
                        before.at(i, j)
                    }),
            decreases bh - y,
        {
            let mut x: u32 = 0;
            while x < bw
                invariant
                    x <= bw,
                    y < bh,
                    bw == block@.width,
                    bh == block@.height,
                    w == width == before.width,
                    h == height == before.height,
                    x0 + bw <= w,
                    y0 + bh <= h,
                    pixels.len() == w * h,
                    forall|i: int, j: int|
                        0 <= i < w && 0 <= j < h ==> #[trigger] cell(pixels@, w, i, j) == (if x0
                            <= i < x0 + bw && (y0 <= j < y0 + y || (j == y0 + y && i < x0 + x)) {
                            block@.at(i - x0, j - y0)
                        } else {
                            before.at(i, j)
                        }),
                decreases bw - x,
            {
                let p = block.get_pixel(x, y);
                let ghost prev = pixels@;
                proof {
                    lemma_cell_index(w, h, x0 + x, y0 + y);
                }
                let row = (y0 + y) as usize;
                let col = (x0 + x) as usize;
                pixels.set(row * (width as usize) + col, p);
                proof {
                    assert forall|i: int, j: int| 0 <= i < w && 0 <= j < h implies #[trigger] cell(
                        pixels@,
                        w,
                        i,
                        j,
                    ) == (if i == x0 + x && j == y0 + y {
                        p
                    } else {
                        cell(prev, w, i, j)
                    }) by {
                        lemma_cell_index(w, h, i, j);
                    }
                }
                x += 1;
            }
            y += 1;
        }
        let out = Atlas { width, height, pixels };
        proof {
            let want = before.blit(block@, x0 as int, y0 as int);
            assert forall|j: int| 0 <= j < h implies #[trigger] out@.rows[j] =~= want.rows[j] by {
                assert forall|i: int| 0 <= i < w implies out@.rows[j][i] == want.rows[j][i] by {
                    assert(out@.rows[j][i] == cell(out.pixels@, w, i, j));
                }
            }
        }
        out
    }
}

} // verus!
