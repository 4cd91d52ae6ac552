//! The image buffer and the per-pixel job order.
//!
//! The render orchestrator submits one shading job per pixel, in row-major
//! order, and drains the results — which arrive in whatever order the
//! workers finish — into a pre-allocated grid. Each result carries its own
//! coordinates and every write targets a distinct slot, so the final grid is
//! deterministic even though completion order is not; `lemma_grid_set_commutes`
//! is that argument, and the lemmas on the row-major order say that every
//! pixel is submitted exactly once.

use vstd::prelude::*;
use vstd::arithmetic::div_mod::{lemma_fundamental_div_mod, lemma_fundamental_div_mod_converse};

verus! {

/// The dimensions of the image being rendered.
#[derive(Clone, Copy, Debug, PartialEq, Eq, Structural)]
pub struct ImgData {
    pub height: usize,
    pub width: usize,
}

/// A sequence of pixel coordinates laid out row by row: entry `k` is column
/// `k % width` of row `k / width`.
pub open spec fn is_row_major(width: int, s: Seq<(usize, usize)>) -> bool {
    forall|k: int| 0 <= k < s.len() ==>
        (#[trigger] s[k]).0 as int == k % width && s[k].1 as int == k / width
}

impl ImgData {
    pub fn new(img_height: usize, img_width: usize) -> (r: Self)
        ensures
            r.height == img_height,
            r.width == img_width,
    {
        Self { height: img_height, width: img_width }
    }

    /// How many pixels the image has, and so how many shading jobs a render
    /// submits and how many results the collector must drain.
    pub fn pixel_count(&self) -> (r: usize)
        requires
            self.width as int * self.height as int <= usize::MAX as int,
        ensures
            r as int == self.width as int * self.height as int,
    {
        self.width * self.height
    }

    /// The coordinates of every pixel, row by row: the order in which the
    /// orchestrator submits shading jobs. Each pair is `(column, row)`.
    pub fn pixel_order(&self) -> (r: Vec<(usize, usize)>)
        requires
            self.width as int * self.height as int <= usize::MAX as int,
        ensures
            r@.len() == self.width as int * self.height as int,
            is_row_major(self.width as int, r@),
    {
        let w: usize = self.width;
        let h: usize = self.height;
        let mut order: Vec<(usize, usize)> = Vec::new();
        let mut y: usize = 0;
        while y < h
            invariant
                y <= h,
                w as int * h as int <= usize::MAX as int,
                order@.len() == y as int * w as int,
                is_row_major(w as int, order@),
            decreases h - y,
        {
            let mut x: usize = 0;
            while x < w
                invariant
                    y < h,
                    x <= w,
                    w as int * h as int <= usize::MAX as int,
                    order@.len() == y as int * w as int + x as int,
                    is_row_major(w as int, order@),
                decreases w - x,
            {
                proof {
                    assert(y as int * w as int + w as int <= w as int * h as int)
                        by (nonlinear_arith)
                        requires
                            0 <= (y as int) && (y as int) < (h as int),
                            0 <= (w as int),
                    ;
                    lemma_fundamental_div_mod_converse(
                        y as int * w as int + x as int,
                        w as int,
                        y as int,
                        x as int,
                    );
                }
                order.push((x, y));
                x = x + 1;
            }
            proof {
                assert(y as int * w as int + w as int == (y + 1) as int * w as int)
                    by (nonlinear_arith);
            }
            y = y + 1;
        }
        proof {
            assert(h as int * w as int == w as int * h as int) by (nonlinear_arith);
        }
        order
    }
}

/// In a row-major order of `width * height` coordinates, pixel `(x, y)`
/// appears at index `y * width + x`: every pixel of the image gets a job.
pub proof fn lemma_pixel_order_covers(width: int, height: int, s: Seq<(usize, usize)>)
    requires
        width >= 1,
        height >= 0,
        s.len() == width * height,
        is_row_major(width, s),
    ensures
        forall|x: int, y: int| 0 <= x < width && 0 <= y < height ==>
            (#[trigger] s[y * width + x]).0 as int == x && s[y * width + x].1 as int == y,
{
    assert forall|x: int, y: int| 0 <= x < width && 0 <= y < height implies
        (#[trigger] s[y * width + x]).0 as int == x && s[y * width + x].1 as int == y by {
        assert(0 <= y * width + x < width * height) by (nonlinear_arith)
            requires
                0 <= x < width,
                0 <= y < height,
        ;
        lemma_fundamental_div_mod_converse(y * width + x, width, y, x);
    }
}

/// A row-major order never repeats a coordinate: no pixel's job is submitted
/// twice, so each slot of the grid is written exactly once.
pub proof fn lemma_pixel_order_unique(width: int, s: Seq<(usize, usize)>)
    requires
        width >= 1,
        is_row_major(width, s),
    ensures
        forall|k1: int, k2: int| 0 <= k1 < k2 < s.len() ==> s[k1] != s[k2],
{
    assert forall|k1: int, k2: int| 0 <= k1 < k2 < s.len() implies s[k1] != s[k2] by {
        lemma_fundamental_div_mod(k1, width);
        lemma_fundamental_div_mod(k2, width);
    }
}

/// The grid after writing `v` into column `x` of row `y`.
pub open spec fn grid_set<T>(g: Seq<Seq<T>>, x: int, y: int, v: T) -> Seq<Seq<T>> {
    g.update(y, g[y].update(x, v))
}

/// Writes to two distinct slots commute: the collector may apply arriving
/// results in any order and still produce the same image.
pub proof fn lemma_grid_set_commutes<T>(
    g: Seq<Seq<T>>,
    x1: int,
    y1: int,
    v1: T,
    x2: int,
    y2: int,
    v2: T,
)
    requires
        0 <= y1 < g.len(),
        0 <= y2 < g.len(),
        0 <= x1 < g[y1].len(),
        0 <= x2 < g[y2].len(),
        x1 != x2 || y1 != y2,
    ensures
        grid_set(grid_set(g, x1, y1, v1), x2, y2, v2)
            == grid_set(grid_set(g, x2, y2, v2), x1, y1, v1),
{
    assert(grid_set(grid_set(g, x1, y1, v1), x2, y2, v2)
        =~~= grid_set(grid_set(g, x2, y2, v2), x1, y1, v1));
}

/// The buffer a render collects into: a `height x width` grid of per-pixel
/// results.
pub struct PixelGrid<T> {
    img: ImgData,
    rows: Vec<Vec<T>>,
}

impl<T> PixelGrid<T> {
    /// The grid's contents, row by row.
    pub closed spec fn grid(&self) -> Seq<Seq<T>> {
        self.rows@.map_values(|row: Vec<T>| row@)
    }

    /// The dimensions the grid was created with.
    pub closed spec fn dims(&self) -> ImgData {
        self.img
    }

    /// The width of the grid.
    pub fn width(&self) -> (r: usize)
        ensures
            r == self.dims().width,
    {
        self.img.width
    }

    /// The height of the grid.
    pub fn height(&self) -> (r: usize)
        ensures
            r == self.dims().height,
    {
        self.img.height
    }

    /// The grid really is `height` rows of `width` slots.
    pub open spec fn wf(&self) -> bool {
        &&& self.grid().len() == self.dims().height
        &&& forall|y: int| 0 <= y < self.grid().len() ==>
            (#[trigger] self.grid()[y]).len() == self.dims().width
    }

    /// Reads the slot of pixel `(x, y)`.
    pub fn get(&self, x: usize, y: usize) -> (r: &T)
        requires
            self.wf(),
            x < self.dims().width,
            y < self.dims().height,
        ensures
            *r == self.grid()[y as int][x as int],
    {
        proof {
            assert(self.grid()[y as int] == self.rows@[y as int]@);
        }
        &self.rows[y][x]
    }

    /// Writes an arrived result into the slot of pixel `(x, y)`, leaving
    /// every other slot as it was.
    pub fn place(&mut self, x: usize, y: usize, value: T)
        requires
            old(self).wf(),
            x < old(self).dims().width,
            y < old(self).dims().height,
        ensures
            final(self).wf(),
            final(self).dims() == old(self).dims(),
            final(self).grid() == grid_set(old(self).grid(), x as int, y as int, value),
    {
        proof {
            assert(self.grid()[y as int] == self.rows@[y as int]@);
        }
        self.rows[y][x] = value;
        proof {
            assert(self.grid() =~~= grid_set(old(self).grid(), x as int, y as int, value));
        }
    }
}

impl<T: Copy> PixelGrid<T> {
    /// A fresh grid for `img` with every slot holding `fill` — black, for a
    /// render about to start.
    pub fn new(img: ImgData, fill: T) -> (r: Self)
        ensures
            r.wf(),
            r.dims() == img,
            forall|y: int, x: int|
                0 <= y < img.height && 0 <= x < img.width ==> #[trigger] r.grid()[y][x] == fill,
    {
        let mut rows: Vec<Vec<T>> = Vec::new();
        let mut y: usize = 0;
        while y < img.height
            invariant
                y <= img.height,
                rows@.len() == y,
                forall|yy: int| 0 <= yy < y ==> (#[trigger] rows@[yy])@.len() == img.width,
                forall|yy: int, xx: int|
                    0 <= yy < y && 0 <= xx < img.width ==> #[trigger] rows@[yy]@[xx] == fill,
            decreases img.height - y,
        {
            let mut row: Vec<T> = Vec::new();
            let mut x: usize = 0;
            while x < img.width
                invariant
                    x <= img.width,
                    row@.len() == x,
                    forall|xx: int| 0 <= xx < x ==> #[trigger] row@[xx] == fill,
                decreases img.width - x,
            {
                row.push(fill);
                x = x + 1;
            }
            rows.push(row);
            y = y + 1;
        }
        let r = Self { img, rows };
        proof {
            assert(r.grid().len() == img.height);
            assert forall|y: int| 0 <= y < r.grid().len() implies
                (#[trigger] r.grid()[y]).len() == img.width by {
                assert(r.grid()[y] == rows@[y]@);
            }
            assert forall|y: int, x: int|
                0 <= y < img.height && 0 <= x < img.width implies
                #[trigger] r.grid()[y][x] == fill by {
                assert(r.grid()[y] == rows@[y]@);
            }
        }
        r
    }
}

} // verus!
