//! The seeder: clears a grid, and places a requested number of live cells at
//! positions drawn uniformly at random from the grid interior (the region
//! excluding the outermost ring on all four sides).

use rand::Rng;
use vstd::prelude::*;

use crate::grid::Grid;
use crate::grid::SimError;
use crate::grid::all_dead;
use crate::grid::lemma_live_count_set_alive;
use crate::grid::live_count;

verus! {

#[verifier::external_type_specification]
#[verifier::external_body]
pub struct ExThreadRng(rand::rngs::ThreadRng);

/// Relies on rand::thread_rng: returns a handle to the thread-local
/// generator. Nothing is assumed of the values it will produce.
#[verifier::external_body]
fn fresh_rng() -> rand::rngs::ThreadRng {
    rand::thread_rng()
}

/// Relies on rand::Rng::gen_range: returns a value drawn uniformly from
/// `lo..hi`. It panics only on an empty range, which the precondition
/// excludes; nothing is assumed about which value comes back beyond its
/// range.
#[verifier::external_body]
fn rand_index(rng: &mut rand::rngs::ThreadRng, lo: usize, hi: usize) -> (r: usize)
    requires
        lo < hi,
    ensures
        lo <= r < hi,
{
    rng.gen_range(lo..hi)
}

/// A position in the interior of a `w x h` grid: the outermost ring on all
/// four sides is excluded.
pub open spec fn in_interior(w: int, h: int, x: int, y: int) -> bool {
    1 <= x < w - 1 && 1 <= y < h - 1
}

/// Sets every cell of the grid dead, in place; the dimensions are unchanged
/// and nothing else is touched.
pub fn clear(grid: &mut Grid)
    requires
        old(grid).wf(),
    ensures
        final(grid).wf(),
        final(grid).width == old(grid).width,
        final(grid).height == old(grid).height,
        all_dead(final(grid)@),
{
    match Grid::create(grid.width, grid.height) {
        Ok(g) => {
            *grid = g;
        },
        Err(_) => {
            proof {
                assert(false);
            }
        },
    }
}

/// Places `count` live cells at positions drawn uniformly at random from the
/// grid interior. Positions may repeat, so the number of live cells gained
/// is at most `count`; no cell is ever set dead, and no cell outside the
/// interior changes. Returns `InvalidArgument` — and changes nothing — exactly
/// when the interior is empty, that is when width or height is at most 2.
pub fn random_fill(grid: &mut Grid, count: u32) -> (r: Result<(), SimError>)
    requires
        old(grid).wf(),
    ensures
        final(grid).wf(),
        final(grid).width == old(grid).width,
        final(grid).height == old(grid).height,
        r is Ok <==> (old(grid).width > 2 && old(grid).height > 2),
        r is Err ==> *final(grid) == *old(grid) && r->Err_0 == SimError::InvalidArgument,
        r is Ok ==> forall|x: int, y: int|
            0 <= x < old(grid).width && 0 <= y < old(grid).height && old(grid)@[x][y]
                ==> #[trigger] final(grid)@[x][y],
        r is Ok ==> forall|x: int, y: int|
            0 <= x < old(grid).width && 0 <= y < old(grid).height && #[trigger] final(grid)@[x][y]
                ==> old(grid)@[x][y] || in_interior(
                old(grid).width as int,
                old(grid).height as int,
                x,
                y,
            ),
        r is Ok ==> live_count(old(grid)@) <= live_count(final(grid)@) <= live_count(old(grid)@)
            + count,
        r is Ok && count >= 1 ==> live_count(final(grid)@) >= 1,
{
    let w = grid.width;
    let h = grid.height;
    if w <= 2 || h <= 2 {
        return Err(SimError::InvalidArgument);
    }
    let ghost g0 = grid@;
    let mut rng = fresh_rng();
    for k in 0..count
        invariant
            grid.wf(),
            grid.width == w,
            grid.height == h,
            w > 2,
            h > 2,
            forall|x: int, y: int|
                0 <= x < w && 0 <= y < h && g0[x][y] ==> #[trigger] grid@[x][y],
            forall|x: int, y: int|
                0 <= x < w && 0 <= y < h && #[trigger] grid@[x][y] ==> g0[x][y] || in_interior(
                    w as int,
                    h as int,
                    x,
                    y,
                ),
            live_count(g0) <= live_count(grid@) <= live_count(g0) + k,
            k >= 1 ==> live_count(grid@) >= 1,
    {
        let x = rand_index(&mut rng, 1, w - 1);
        let y = rand_index(&mut rng, 1, h - 1);
        proof {
            lemma_live_count_set_alive(grid@, x as int, y as int);
        }
        let _ = grid.set(x, y, true);
    }
    Ok(())
}

} // verus!
