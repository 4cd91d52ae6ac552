//! The stratified sub-pixel sampling lattice.
//!
//! Instead of jittering sample positions at random, the camera shoots the
//! rays of one pixel through a deterministic grid of sub-pixel offsets. For
//! `num_layers = N >= 1` the grid has `N x N` points, placed at the centers
//! of an `N x N` subdivision of the pixel's footprint; for `N = 0` it
//! degenerates to the single pixel-center offset.
//!
//! Every such offset is an exact fraction of the pixel's two footprint
//! vectors: point `(x, y)` of the grid sits at `(2x+1)/(2N)` of the first
//! vector and `(2y+1)/(2N)` of the second. This module builds the lattice as
//! those exact fractions; scaling them by the floating-point footprint
//! vectors is one multiplication per axis, left to the caller.

use vstd::prelude::*;
use vstd::arithmetic::div_mod::{lemma_fundamental_div_mod, lemma_fundamental_div_mod_converse};

verus! {

/// One sub-pixel sample position, as a pair of exact fractions of the
/// pixel's footprint: the offset along an axis is `num / denom` of that
/// axis's footprint vector. Both coordinates share the denominator.
#[derive(Clone, Copy, Debug, PartialEq, Eq, Structural)]
pub struct LatticeOffset {
    pub x_num: usize,
    pub y_num: usize,
    pub denom: usize,
}

/// How many sample points the lattice with `n` layers has.
pub open spec fn lattice_len(n: int) -> int {
    if n == 0 {
        1
    } else {
        n * n
    }
}

/// The common denominator of the lattice's fractions.
pub open spec fn lattice_denom(n: int) -> int {
    if n == 0 {
        2
    } else {
        2 * n
    }
}

/// What the `k`-th point of the lattice with `n` layers is: the lattice is
/// laid out row by row, so point `k` sits in column `k % n` and row `k / n`,
/// at the center of that grid cell.
pub open spec fn lattice_cell(n: int, k: int, o: LatticeOffset) -> bool {
    if n == 0 {
        o.x_num == 1 && o.y_num == 1 && o.denom == 2
    } else {
        &&& o.x_num as int == 2 * (k % n) + 1
        &&& o.y_num as int == 2 * (k / n) + 1
        &&& o.denom as int == 2 * n
    }
}

/// The full lattice with `n` layers: the right number of points, each the
/// center of its grid cell.
pub open spec fn is_lattice(n: int, s: Seq<LatticeOffset>) -> bool {
    &&& s.len() == lattice_len(n)
    &&& forall|k: int| 0 <= k < s.len() ==> lattice_cell(n, k, #[trigger] s[k])
}

/// Builds the sampling lattice for `num_layers` layers, row by row:
/// `num_layers * num_layers` points for one or more layers, the single
/// pixel-center offset for zero layers.
pub fn offset_lattice(num_layers: usize) -> (r: Vec<LatticeOffset>)
    requires
        num_layers as int * num_layers as int <= usize::MAX as int,
    ensures
        is_lattice(num_layers as int, r@),
{
    if num_layers == 0 {
        let mut offsets: Vec<LatticeOffset> = Vec::new();
        offsets.push(LatticeOffset { x_num: 1, y_num: 1, denom: 2 });
        return offsets;
    }

    let n: usize = num_layers;
    assert(2 * (n as int) <= n as int * n as int || n == 1) by (nonlinear_arith)
        requires
            n >= 1,
    ;
    let denom: usize = 2 * n;

    let mut offsets: Vec<LatticeOffset> = Vec::new();
    let mut y: usize = 0;
    while y < n
        invariant
            1 <= n,
            n as int * n as int <= usize::MAX as int,
            denom == 2 * n,
            y <= n,
            offsets@.len() == y as int * n as int,
            forall|k: int| 0 <= k < offsets@.len() ==>
                lattice_cell(n as int, k, #[trigger] offsets@[k]),
        decreases n - y,
    {
        let mut x: usize = 0;
        while x < n
            invariant
                1 <= n,
                n as int * n as int <= usize::MAX as int,
                denom == 2 * n,
                y < n,
                x <= n,
                offsets@.len() == y as int * n as int + x as int,
                forall|k: int| 0 <= k < offsets@.len() ==>
                    lattice_cell(n as int, k, #[trigger] offsets@[k]),
            decreases n - x,
        {
            proof {
                assert(y as int * n as int + n as int <= n as int * n as int)
                    by (nonlinear_arith)
                    requires
                        0 <= (y as int) && (y as int) < (n as int),
                ;
                lemma_fundamental_div_mod_converse(
                    y as int * n as int + x as int,
                    n as int,
                    y as int,
                    x as int,
                );
            }
            offsets.push(LatticeOffset { x_num: 2 * x + 1, y_num: 2 * y + 1, denom });
            x = x + 1;
        }
        proof {
            assert(y as int * n as int + n as int == (y + 1) as int * n as int)
                by (nonlinear_arith);
        }
        y = y + 1;
    }
    offsets
}

/// The sum of the `x` numerators of a run of lattice points.
pub open spec fn sum_x_num(s: Seq<LatticeOffset>) -> int
    decreases s.len(),
{
    if s.len() == 0 {
        0
    } else {
        sum_x_num(s.drop_last()) + s.last().x_num
    }
}

/// The sum of the `y` numerators of a run of lattice points.
pub open spec fn sum_y_num(s: Seq<LatticeOffset>) -> int
    decreases s.len(),
{
    if s.len() == 0 {
        0
    } else {
        sum_y_num(s.drop_last()) + s.last().y_num
    }
}

/// Closed forms for the numerator sums over the first `j` points of an
/// `n`-layer lattice, writing `j = m * n + x` with `m = j / n`, `x = j % n`:
/// the `x` numerators of each full row sum to `n * n` and of a partial row
/// to `x * x`; the `y` numerators of row `r` sum to `n * (2r + 1)`, so full
/// rows give `m * m * n` and the partial row adds `x * (2m + 1)`.
proof fn lemma_lattice_prefix_sums(n: int, s: Seq<LatticeOffset>, j: int)
    requires
        n >= 1,
        is_lattice(n, s),
        0 <= j <= s.len(),
    ensures
        sum_x_num(s.take(j)) == (j / n) * n * n + (j % n) * (j % n),
        sum_y_num(s.take(j)) == (j / n) * (j / n) * n + (j % n) * (2 * (j / n) + 1),
    decreases j,
{
    if j == 0 {
        assert(s.take(0) =~= Seq::<LatticeOffset>::empty());
        lemma_fundamental_div_mod_converse(j, n, 0, 0);
        assert((j / n) * n * n + (j % n) * (j % n) == 0) by (nonlinear_arith)
            requires
                j / n == 0,
                j % n == 0,
        ;
        assert((j / n) * (j / n) * n + (j % n) * (2 * (j / n) + 1) == 0) by (nonlinear_arith)
            requires
                j / n == 0,
                j % n == 0,
        ;
    } else {
        let j1 = j - 1;
        lemma_lattice_prefix_sums(n, s, j1);
        assert(s.take(j).drop_last() =~= s.take(j1));
        assert(s.take(j).last() == s[j1]);
        assert(lattice_cell(n, j1, s[j1]));

        lemma_fundamental_div_mod(j1, n);
        let m1 = j1 / n;
        let x1 = j1 % n;
        assert(0 <= m1) by (nonlinear_arith)
            requires
                n >= 1,
                j1 == n * m1 + x1,
                0 <= x1 < n,
                0 <= j1,
        ;
        assert(sum_x_num(s.take(j)) == m1 * n * n + x1 * x1 + (2 * x1 + 1));
        assert(sum_y_num(s.take(j)) == m1 * m1 * n + x1 * (2 * m1 + 1) + (2 * m1 + 1));
        if x1 + 1 < n {
            assert(j == m1 * n + (x1 + 1)) by (nonlinear_arith)
                requires
                    j == n * m1 + x1 + 1,
            ;
            lemma_fundamental_div_mod_converse(j, n, m1, x1 + 1);
            assert(m1 * n * n + (x1 + 1) * (x1 + 1) == m1 * n * n + x1 * x1 + 2 * x1 + 1)
                by (nonlinear_arith);
            assert((j / n) * n * n + (j % n) * (j % n) == m1 * n * n + (x1 + 1) * (x1 + 1));
            assert(m1 * m1 * n + (x1 + 1) * (2 * m1 + 1)
                == m1 * m1 * n + x1 * (2 * m1 + 1) + 2 * m1 + 1) by (nonlinear_arith);
        } else {
            assert(j == (m1 + 1) * n + 0) by (nonlinear_arith)
                requires
                    j == j1 + 1,
                    j1 == n * m1 + x1,
                    x1 + 1 == n,
            ;
            lemma_fundamental_div_mod_converse(j, n, m1 + 1, 0);
            assert((j / n) * n * n + (j % n) * (j % n) == (m1 + 1) * n * n)
                by (nonlinear_arith)
                requires
                    j / n == m1 + 1,
                    j % n == 0,
            ;
            assert((j / n) * (j / n) * n + (j % n) * (2 * (j / n) + 1)
                == (m1 + 1) * (m1 + 1) * n) by (nonlinear_arith)
                requires
                    j / n == m1 + 1,
                    j % n == 0,
            ;
            assert((m1 + 1) * n * n + 0 == m1 * n * n + x1 * x1 + 2 * x1 + 1)
                by (nonlinear_arith)
                requires
                    x1 + 1 == n,
            ;
            assert((m1 + 1) * (m1 + 1) * n + 0
                == m1 * m1 * n + x1 * (2 * m1 + 1) + 2 * m1 + 1) by (nonlinear_arith)
                requires
                    x1 + 1 == n,
            ;
        }
    }
}

/// The lattice is an unbiased sampling pattern: on each axis the average of
/// its offsets is exactly half the footprint, i.e. the pixel center. Stated
/// without division: twice the numerator sum equals the point count times
/// the common denominator.
pub proof fn lemma_lattice_mean(n: int, s: Seq<LatticeOffset>)
    requires
        n >= 0,
        is_lattice(n, s),
    ensures
        2 * sum_x_num(s) == lattice_len(n) * lattice_denom(n),
        2 * sum_y_num(s) == lattice_len(n) * lattice_denom(n),
{
    if n == 0 {
        reveal_with_fuel(sum_x_num, 2);
        reveal_with_fuel(sum_y_num, 2);
        assert(s.len() == 1);
        assert(lattice_cell(0, 0, s[0]));
        assert(s.drop_last() =~= Seq::<LatticeOffset>::empty());
        assert(s.last() == s[0]);
    } else {
        let len = n * n;
        assert(len >= 1) by (nonlinear_arith)
            requires
                n >= 1,
                len == n * n,
        ;
        lemma_lattice_prefix_sums(n, s, len);
        assert(s.take(len) =~= s);
        assert(sum_x_num(s) == sum_x_num(s.take(len)));
        assert(sum_y_num(s) == sum_y_num(s.take(len)));
        lemma_fundamental_div_mod_converse(len, n, n, 0);
        assert(lattice_len(n) * lattice_denom(n) == (n * n) * (2 * n)) by (nonlinear_arith)
            requires
                lattice_len(n) == n * n,
                lattice_denom(n) == 2 * n,
        ;
        assert(2 * ((len / n) * n * n + (len % n) * (len % n)) == (n * n) * (2 * n))
            by (nonlinear_arith)
            requires
                len / n == n,
                len % n == 0,
        ;
        assert(2 * ((len / n) * (len / n) * n + (len % n) * (2 * (len / n) + 1))
            == (n * n) * (2 * n)) by (nonlinear_arith)
            requires
                len / n == n,
                len % n == 0,
        ;
    }
}

/// Every lattice point lies strictly inside the pixel's footprint: on each
/// axis its fraction of the footprint vector is strictly between zero and
/// one.
pub proof fn lemma_lattice_in_footprint(n: int, s: Seq<LatticeOffset>)
    requires
        n >= 0,
        is_lattice(n, s),
    ensures
        forall|k: int| 0 <= k < s.len() ==> 0 < #[trigger] s[k].x_num < s[k].denom,
        forall|k: int| 0 <= k < s.len() ==> 0 < #[trigger] s[k].y_num < s[k].denom,
{
    if n >= 1 {
        assert forall|k: int| 0 <= k < s.len() implies
            0 < #[trigger] s[k].x_num < s[k].denom && 0 < s[k].y_num < s[k].denom by {
            assert(lattice_cell(n, k, s[k]));
            lemma_fundamental_div_mod(k, n);
            assert(0 <= k % n < n);
            assert(0 <= k / n < n) by (nonlinear_arith)
                requires
                    n >= 1,
                    k == n * (k / n) + k % n,
                    0 <= k % n < n,
                    0 <= k < n * n,
            ;
        }
    }
}

} // verus!
