//! Laws of the transition rule and of the controller, stated over the spec
//! model and proved once and for all: the 2x2 block is a still life, the
//! blinker oscillates with period 2, a pause toggle is an involution, and
//! cells on column 0 or row 0 never contribute to a neighbour count.

use vstd::prelude::*;

use crate::engine::live_at;
use crate::engine::step;
use crate::engine::step_n;
use crate::engine::window_sum;
use crate::state::GameState;
use crate::state::after_toggle;

verus! {

/// A `w x h` matrix whose only live cells form the 2x2 block whose
/// lowest-coordinate corner is `(x, y)`.
pub open spec fn block_pattern(w: int, h: int, x: int, y: int) -> Seq<Seq<bool>> {
    Seq::new(w as nat, |i: int| Seq::new(h as nat, |j: int| x <= i <= x + 1 && y <= j <= y + 1))
}

/// A `w x h` matrix whose only live cells form the horizontal blinker
/// `(x, y), (x + 1, y), (x + 2, y)`.
pub open spec fn blinker_h(w: int, h: int, x: int, y: int) -> Seq<Seq<bool>> {
    Seq::new(w as nat, |i: int| Seq::new(h as nat, |j: int| j == y && x <= i <= x + 2))
}

/// A `w x h` matrix whose only live cells form the vertical blinker
/// `(x, y), (x, y + 1), (x, y + 2)`.
pub open spec fn blinker_v(w: int, h: int, x: int, y: int) -> Seq<Seq<bool>> {
    Seq::new(w as nat, |i: int| Seq::new(h as nat, |j: int| i == x && y <= j <= y + 2))
}

/// A 2x2 block of live cells placed away from the excluded boundary region
/// (column 0 and row 0) and away from the far edges is a still life: one
/// transition returns it unchanged.
pub proof fn lemma_block_still_life(w: int, h: int, x: int, y: int)
    requires
        1 <= x,
        1 <= y,
        x + 2 <= w,
        y + 2 <= h,
    ensures
        step(block_pattern(w, h, x, y), w, h) == block_pattern(w, h, x, y),
{
    let g = block_pattern(w, h, x, y);
    let s = step(g, w, h);
    assert forall|i: int, j: int| 0 <= i < w && 0 <= j < h implies s[i][j] == g[i][j] by {
        assert(window_sum(g, w, h, i, j) == live_at(g, w, h, i - 1, j - 1) + live_at(
            g,
            w,
            h,
            i - 1,
            j,
        ) + live_at(g, w, h, i - 1, j + 1) + live_at(g, w, h, i, j - 1) + live_at(g, w, h, i, j)
            + live_at(g, w, h, i, j + 1) + live_at(g, w, h, i + 1, j - 1) + live_at(
            g,
            w,
            h,
            i + 1,
            j,
        ) + live_at(g, w, h, i + 1, j + 1));
    }
    assert(s =~~= g);
}

/// A fixed point of the transition rule is unchanged by any number of ticks.
pub proof fn lemma_fixed_point_iterates(g: Seq<Seq<bool>>, w: int, h: int, n: nat)
    requires
        step(g, w, h) == g,
    ensures
        step_n(g, w, h, n) == g,
    decreases n,
{
    if n > 0 {
        lemma_fixed_point_iterates(g, w, h, (n - 1) as nat);
    }
}

/// The 2x2 block is unchanged by any number of ticks.
pub proof fn lemma_block_unchanged_forever(w: int, h: int, x: int, y: int, n: nat)
    requires
        1 <= x,
        1 <= y,
        x + 2 <= w,
        y + 2 <= h,
    ensures
        step_n(block_pattern(w, h, x, y), w, h, n) == block_pattern(w, h, x, y),
{
    lemma_block_still_life(w, h, x, y);
    lemma_fixed_point_iterates(block_pattern(w, h, x, y), w, h, n);
}

/// One tick turns a horizontal blinker into the vertical blinker centred on
/// the same middle cell.
pub proof fn lemma_blinker_horizontal_to_vertical(w: int, h: int, x: int, y: int)
    requires
        1 <= x,
        2 <= y,
        x + 3 <= w,
        y + 2 <= h,
    ensures
        step(blinker_h(w, h, x, y), w, h) == blinker_v(w, h, x + 1, y - 1),
{
    let g = blinker_h(w, h, x, y);
    let s = step(g, w, h);
    let v = blinker_v(w, h, x + 1, y - 1);
    assert forall|i: int, j: int| 0 <= i < w && 0 <= j < h implies s[i][j] == v[i][j] by {
        assert(window_sum(g, w, h, i, j) == live_at(g, w, h, i - 1, j - 1) + live_at(
            g,
            w,
            h,
            i - 1,
            j,
        ) + live_at(g, w, h, i - 1, j + 1) + live_at(g, w, h, i, j - 1) + live_at(g, w, h, i, j)
            + live_at(g, w, h, i, j + 1) + live_at(g, w, h, i + 1, j - 1) + live_at(
            g,
            w,
            h,
            i + 1,
            j,
        ) + live_at(g, w, h, i + 1, j + 1));
    }
    assert(s =~~= v);
}

/// One tick turns a vertical blinker into the horizontal blinker centred on
/// the same middle cell.
pub proof fn lemma_blinker_vertical_to_horizontal(w: int, h: int, x: int, y: int)
    requires
        2 <= x,
        1 <= y,
        x + 2 <= w,
        y + 3 <= h,
    ensures
        step(blinker_v(w, h, x, y), w, h) == blinker_h(w, h, x - 1, y + 1),
{
    let g = blinker_v(w, h, x, y);
    let s = step(g, w, h);
    let hh = blinker_h(w, h, x - 1, y + 1);
    assert forall|i: int, j: int| 0 <= i < w && 0 <= j < h implies s[i][j] == hh[i][j] by {
        assert(window_sum(g, w, h, i, j) == live_at(g, w, h, i - 1, j - 1) + live_at(
            g,
            w,
            h,
            i - 1,
            j,
        ) + live_at(g, w, h, i - 1, j + 1) + live_at(g, w, h, i, j - 1) + live_at(g, w, h, i, j)
            + live_at(g, w, h, i, j + 1) + live_at(g, w, h, i + 1, j - 1) + live_at(
            g,
            w,
            h,
            i + 1,
            j,
        ) + live_at(g, w, h, i + 1, j + 1));
    }
    assert(s =~~= hh);
}

/// The blinker oscillates with period 2: one tick yields the orthogonal
/// orientation and a second tick returns the original configuration.
pub proof fn lemma_blinker_period_two(w: int, h: int, x: int, y: int)
    requires
        1 <= x,
        2 <= y,
        x + 3 <= w,
        y + 2 <= h,
    ensures
        step(blinker_h(w, h, x, y), w, h) == blinker_v(w, h, x + 1, y - 1),
        step(step(blinker_h(w, h, x, y), w, h), w, h) == blinker_h(w, h, x, y),
{
    lemma_blinker_horizontal_to_vertical(w, h, x, y);
    lemma_blinker_vertical_to_horizontal(w, h, x + 1, y - 1);
}

/// The vertical blinker oscillates with period 2 as well.
pub proof fn lemma_blinker_period_two_vertical(w: int, h: int, x: int, y: int)
    requires
        2 <= x,
        1 <= y,
        x + 2 <= w,
        y + 3 <= h,
    ensures
        step(blinker_v(w, h, x, y), w, h) == blinker_h(w, h, x - 1, y + 1),
        step(step(blinker_v(w, h, x, y), w, h), w, h) == blinker_v(w, h, x, y),
{
    lemma_blinker_vertical_to_horizontal(w, h, x, y);
    lemma_blinker_horizontal_to_vertical(w, h, x - 1, y + 1);
}

/// Two pause toggles return the controller to exactly its original state:
/// run state, grid, generation counter and tick rate all unchanged.
pub proof fn lemma_toggle_twice(gs: GameState)
    ensures
        after_toggle(after_toggle(gs)) == gs,
{
}

/// One window term is the same over two grids that agree on every position
/// with both coordinates strictly positive.
proof fn lemma_live_at_same(g1: Seq<Seq<bool>>, g2: Seq<Seq<bool>>, w: int, h: int, x: int, y: int)
    requires
        forall|i: int, j: int| 0 < i < w && 0 < j < h ==> #[trigger] g1[i][j] == #[trigger] g2[i][j],
    ensures
        live_at(g1, w, h, x, y) == live_at(g2, w, h, x, y),
{
    if 0 < x < w && 0 < y < h {
        assert(g1[x][y] == g2[x][y]);
    }
}

/// Two grids that agree everywhere off column 0 and row 0 have the same
/// window sum at every position: what stands on column 0 or row 0 never
/// contributes to a neighbour count.
pub proof fn lemma_boundary_never_counted(g1: Seq<Seq<bool>>, g2: Seq<Seq<bool>>, w: int, h: int)
    requires
        forall|i: int, j: int| 0 < i < w && 0 < j < h ==> #[trigger] g1[i][j] == #[trigger] g2[i][j],
    ensures
        forall|x: int, y: int| #[trigger] window_sum(g1, w, h, x, y) == window_sum(g2, w, h, x, y),
{
    assert forall|x: int, y: int| #[trigger] window_sum(g1, w, h, x, y) == window_sum(
        g2,
        w,
        h,
        x,
        y,
    ) by {
        lemma_live_at_same(g1, g2, w, h, x - 1, y - 1);
        lemma_live_at_same(g1, g2, w, h, x - 1, y);
        lemma_live_at_same(g1, g2, w, h, x - 1, y + 1);
        lemma_live_at_same(g1, g2, w, h, x, y - 1);
        lemma_live_at_same(g1, g2, w, h, x, y);
        lemma_live_at_same(g1, g2, w, h, x, y + 1);
        lemma_live_at_same(g1, g2, w, h, x + 1, y - 1);
        lemma_live_at_same(g1, g2, w, h, x + 1, y);
        lemma_live_at_same(g1, g2, w, h, x + 1, y + 1);
    }
}

} // verus!
