//! The transition engine: computes the next generation of a grid under the
//! B3/S23 Game-of-Life rule with bounded (non-wrapping) edges.
//!
//! The boundary policy is asymmetric: a position contributes to a neighbour
//! count only when both of its coordinates are strictly positive and
//! strictly below the grid extent. Cells on column 0 and row 0 therefore
//! never contribute to any count, while cells on the last column and row do.

use vstd::prelude::*;

use crate::grid::Grid;

verus! {

/// The boundary policy: `(x, y)` contributes to neighbour counting only when
/// both coordinates are strictly positive and strictly below the extent.
pub open spec fn counted(w: int, h: int, x: int, y: int) -> bool {
    x > 0 && y > 0 && x < w && y < h
}

/// 1 when the position is counted by the boundary policy and holds a live
/// cell, 0 otherwise.
pub open spec fn live_at(g: Seq<Seq<bool>>, w: int, h: int, x: int, y: int) -> int {
    if counted(w, h, x, y) && g[x][y] {
        1int
    } else {
        0
    }
}

/// Live cells among the nine positions of the 3x3 window centred on `(x, y)`,
/// under the boundary policy. The centre itself is included when counted.
pub open spec fn window_sum(g: Seq<Seq<bool>>, w: int, h: int, x: int, y: int) -> int {
    live_at(g, w, h, x - 1, y - 1) + live_at(g, w, h, x - 1, y) + live_at(g, w, h, x - 1, y + 1)
        + live_at(g, w, h, x, y - 1) + live_at(g, w, h, x, y) + live_at(g, w, h, x, y + 1)
        + live_at(g, w, h, x + 1, y - 1) + live_at(g, w, h, x + 1, y) + live_at(
        g,
        w,
        h,
        x + 1,
        y + 1,
    )
}

/// Live neighbours of `(x, y)`: the live cells among the eight surrounding
/// positions that the boundary policy counts — the window total minus the
/// centre's own contribution.
pub open spec fn live_neighbours(g: Seq<Seq<bool>>, w: int, h: int, x: int, y: int) -> int {
    window_sum(g, w, h, x, y) - live_at(g, w, h, x, y)
}

/// The B3/S23 rule: a live cell survives with 2 or 3 live neighbours, a dead
/// cell is born with exactly 3, every other cell is dead next generation.
pub open spec fn next_cell(g: Seq<Seq<bool>>, w: int, h: int, x: int, y: int) -> bool {
    if g[x][y] {
        2 <= live_neighbours(g, w, h, x, y) <= 3
    } else {
        live_neighbours(g, w, h, x, y) == 3
    }
}

/// The next generation of a `w x h` cell matrix, every cell evaluated against
/// the same snapshot `g`.
pub open spec fn step(g: Seq<Seq<bool>>, w: int, h: int) -> Seq<Seq<bool>>
    recommends
        w >= 0,
        h >= 0,
{
    Seq::new(w as nat, |x: int| Seq::new(h as nat, |y: int| next_cell(g, w, h, x, y)))
}

/// `n` generations of the transition rule applied to `g`.
pub open spec fn step_n(g: Seq<Seq<bool>>, w: int, h: int, n: nat) -> Seq<Seq<bool>>
    decreases n,
{
    if n == 0 {
        g
    } else {
        step(step_n(g, w, h, (n - 1) as nat), w, h)
    }
}

/// Counts the live cells in the 3x3 window centred on `(x, y)`, under the
/// boundary policy.
fn window_count(g: &Grid, x: usize, y: usize) -> (n: u32)
    requires
        g.wf(),
        x < g.width,
        y < g.height,
    ensures
        n as int == window_sum(g@, g.width as int, g.height as int, x as int, y as int),
{
    let w = g.width;
    let h = g.height;
    let mut n: u32 = 0;
    if x >= 2 && y >= 2 && g.cell(x - 1, y - 1) {
        n = n + 1;
    }
    if x >= 2 && y >= 1 && g.cell(x - 1, y) {
        n = n + 1;
    }
    if x >= 2 && y + 1 < h && g.cell(x - 1, y + 1) {
        n = n + 1;
    }
    if x >= 1 && y >= 2 && g.cell(x, y - 1) {
        n = n + 1;
    }
    if x >= 1 && y >= 1 && g.cell(x, y) {
        n = n + 1;
    }
    if x >= 1 && y + 1 < h && g.cell(x, y + 1) {
        n = n + 1;
    }
    if x + 1 < w && y >= 2 && g.cell(x + 1, y - 1) {
        n = n + 1;
    }
    if x + 1 < w && y >= 1 && g.cell(x + 1, y) {
        n = n + 1;
    }
    if x + 1 < w && y + 1 < h && g.cell(x + 1, y + 1) {
        n = n + 1;
    }
    n
}

/// Computes the next generation into a fresh grid of the same dimensions,
/// reading only the snapshot `g`.
pub fn next_generation(g: &Grid) -> (r: Grid)
    requires
        g.wf(),
    ensures
        r.wf(),
        r.width == g.width,
        r.height == g.height,
        r@ == step(g@, g.width as int, g.height as int),
{
    let w = g.width;
    let h = g.height;
    let mut cells: Vec<Vec<bool>> = Vec::new();
    for x in 0..w
        invariant
            g.wf(),
            w == g.width,
            h == g.height,
            cells@.len() == x,
            forall|i: int| 0 <= i < x ==> (#[trigger] cells@[i])@.len() == h,
            forall|i: int, j: int|
                0 <= i < x && 0 <= j < h ==> (#[trigger] cells@[i]@[j]) == next_cell(
                    g@,
                    w as int,
                    h as int,
                    i,
                    j,
                ),
    {
        let mut column: Vec<bool> = Vec::new();
        for y in 0..h
            invariant
                g.wf(),
                w == g.width,
                h == g.height,
                x < w,
                column@.len() == y,
                forall|j: int|
                    0 <= j < y ==> (#[trigger] column@[j]) == next_cell(
                        g@,
                        w as int,
                        h as int,
                        x as int,
                        j,
                    ),
        {
            let count = window_count(g, x, y);
            let alive = g.cell(x, y);
            let next = if alive {
                if x >= 1 && y >= 1 {
                    // the centre is itself counted in the window total
                    count == 3 || count == 4
                } else {
                    count == 2 || count == 3
                }
            } else {
                count == 3
            };
            proof {
                assert(next == next_cell(g@, w as int, h as int, x as int, y as int));
            }
            column.push(next);
        }
        cells.push(column);
    }
    let r = Grid { width: w, height: h, cells };
    assert(r@ =~~= step(g@, w as int, h as int));
    r
}

} // verus!
