//! The dense two-dimensional grid of boolean cell states, with bounds-checked
//! accessors and the error kinds shared by the whole engine.

use vstd::prelude::*;

verus! {

/// Error kinds returned by the engine's fallible operations.
#[derive(Clone, Copy, Debug, PartialEq, Eq, Structural)]
pub enum SimError {
    /// A grid dimension is zero.
    InvalidDimension,
    /// A coordinate lies outside the grid extent.
    OutOfBounds,
    /// A seeding request is impossible for the given grid size.
    InvalidArgument,
}

/// A bounded two-dimensional grid of cells, indexed `[0, width) x [0, height)`.
/// `true` is a live cell, `false` a dead one. The view is the column-major
/// matrix of states: `self@[x][y]` is the state of the cell at `(x, y)`.
#[derive(Debug)]
pub struct Grid {
    /// Number of columns; positive.
    pub width: usize,
    /// Number of rows; positive.
    pub height: usize,
    /// The cell matrix: `cells[x][y]` is the state of the cell at `(x, y)`.
    pub cells: Vec<Vec<bool>>,
}

impl View for Grid {
    type V = Seq<Seq<bool>>;

    open spec fn view(&self) -> Seq<Seq<bool>> {
        Seq::new(self.cells@.len(), |x: int| self.cells@[x]@)
    }
}

/// Every column in `g` has exactly `height` entries and there are `width` columns.
pub open spec fn matrix_shaped(g: Seq<Seq<bool>>, width: int, height: int) -> bool {
    &&& g.len() == width
    &&& forall|x: int| 0 <= x < width ==> (#[trigger] g[x]).len() == height
}

/// Every cell of `g` is dead.
pub open spec fn all_dead(g: Seq<Seq<bool>>) -> bool {
    forall|x: int, y: int| 0 <= x < g.len() && 0 <= y < g[x].len() ==> !(#[trigger] g[x][y])
}

impl Grid {
    /// The grid's structural invariant: positive dimensions and a fully
    /// populated `width x height` cell matrix.
    pub open spec fn wf(&self) -> bool {
        &&& self.width > 0
        &&& self.height > 0
        &&& matrix_shaped(self@, self.width as int, self.height as int)
    }

    /// Builds a grid with all cells dead. Returns `InvalidDimension` when
    /// either dimension is zero.
    pub fn create(width: usize, height: usize) -> (r: Result<Grid, SimError>)
        ensures
            r is Ok <==> (width > 0 && height > 0),
            r is Ok ==> {
                let g = r->Ok_0;
                &&& g.wf()
                &&& g.width == width
                &&& g.height == height
                &&& all_dead(g@)
            },
            r is Err ==> r->Err_0 == SimError::InvalidDimension,
    {
        if width == 0 || height == 0 {
            return Err(SimError::InvalidDimension);
        }
        let mut cells: Vec<Vec<bool>> = Vec::new();
        for x in 0..width
            invariant
                cells@.len() == x,
                forall|i: int| 0 <= i < x ==> (#[trigger] cells@[i])@.len() == height,
                forall|i: int, j: int|
                    0 <= i < x && 0 <= j < height ==> !(#[trigger] cells@[i]@[j]),
        {
            let column: Vec<bool> = vec![false; height];
            cells.push(column);
        }
        let g = Grid { width, height, cells };
        assert(g@ =~~= Seq::new(width as nat, |x: int| g.cells@[x]@));
        Ok(g)
    }

    /// Reads the cell at `(x, y)`; `OutOfBounds` when the coordinate lies
    /// outside the grid extent.
    pub fn get(&self, x: usize, y: usize) -> (r: Result<bool, SimError>)
        requires
            self.wf(),
        ensures
            r is Ok <==> (x < self.width && y < self.height),
            x < self.width && y < self.height ==> r == Ok::<bool, SimError>(self@[x as int][y as int]),
            r is Err ==> r->Err_0 == SimError::OutOfBounds,
    {
        if x < self.width && y < self.height {
            proof {
                assert(self@[x as int] == self.cells@[x as int]@);
            }
            Ok(self.cells[x][y])
        } else {
            Err(SimError::OutOfBounds)
        }
    }

    /// Reads a cell known to be in bounds.
    pub fn cell(&self, x: usize, y: usize) -> (b: bool)
        requires
            self.wf(),
            x < self.width,
            y < self.height,
        ensures
            b == self@[x as int][y as int],
    {
        proof {
            assert(self@[x as int] == self.cells@[x as int]@);
        }
        self.cells[x][y]
    }

    /// Writes the cell at `(x, y)`; the side effect is limited to that single
    /// cell. `OutOfBounds` (and no change) when the coordinate lies outside
    /// the grid extent.
    pub fn set(&mut self, x: usize, y: usize, value: bool) -> (r: Result<(), SimError>)
        requires
            old(self).wf(),
        ensures
            final(self).wf(),
            final(self).width == old(self).width,
            final(self).height == old(self).height,
            r is Ok <==> (x < old(self).width && y < old(self).height),
            x < old(self).width && y < old(self).height ==> final(self)@ == old(self)@.update(
                x as int,
                old(self)@[x as int].update(y as int, value),
            ),
            r is Err ==> *final(self) == *old(self) && r->Err_0 == SimError::OutOfBounds,
    {
        if x < self.width && y < self.height {
            proof {
                assert(old(self)@[x as int] == old(self).cells@[x as int]@);
            }
            let column: &mut Vec<bool> = &mut self.cells[x];
            column[y] = value;
            assert(self@ =~~= old(self)@.update(x as int, old(self)@[x as int].update(y as int, value)));
            Ok(())
        } else {
            Err(SimError::OutOfBounds)
        }
    }

    /// The grid extent as `(width, height)`.
    pub fn dimensions(&self) -> (r: (usize, usize))
        ensures
            r == (self.width, self.height),
    {
        (self.width, self.height)
    }
}

/// Number of live cells in one column.
pub open spec fn row_live_count(row: Seq<bool>) -> int
    decreases row.len(),
{
    if row.len() == 0 {
        0
    } else {
        row_live_count(row.drop_last()) + (if row.last() {
            1int
        } else {
            0
        })
    }
}

/// Number of live cells in the whole matrix.
pub open spec fn live_count(g: Seq<Seq<bool>>) -> int
    decreases g.len(),
{
    if g.len() == 0 {
        0
    } else {
        live_count(g.drop_last()) + row_live_count(g.last())
    }
}

pub proof fn lemma_row_live_count_nonneg(row: Seq<bool>)
    ensures
        0 <= row_live_count(row),
    decreases row.len(),
{
    if row.len() > 0 {
        lemma_row_live_count_nonneg(row.drop_last());
    }
}

pub proof fn lemma_live_count_nonneg(g: Seq<Seq<bool>>)
    ensures
        0 <= live_count(g),
    decreases g.len(),
{
    if g.len() > 0 {
        lemma_live_count_nonneg(g.drop_last());
        lemma_row_live_count_nonneg(g.last());
    }
}

pub proof fn lemma_row_live_count_pos(row: Seq<bool>, j: int)
    requires
        0 <= j < row.len(),
        row[j],
    ensures
        row_live_count(row) >= 1,
    decreases row.len(),
{
    lemma_row_live_count_nonneg(row.drop_last());
    if j < row.len() - 1 {
        assert(row.drop_last()[j] == row[j]);
        lemma_row_live_count_pos(row.drop_last(), j);
    }
}

pub proof fn lemma_live_count_pos(g: Seq<Seq<bool>>, x: int, y: int)
    requires
        0 <= x < g.len(),
        0 <= y < g[x].len(),
        g[x][y],
    ensures
        live_count(g) >= 1,
    decreases g.len(),
{
    lemma_live_count_nonneg(g.drop_last());
    lemma_row_live_count_nonneg(g.last());
    if x < g.len() - 1 {
        assert(g.drop_last()[x] == g[x]);
        lemma_live_count_pos(g.drop_last(), x, y);
    } else {
        lemma_row_live_count_pos(g.last(), y);
    }
}

pub proof fn lemma_row_all_dead_count(row: Seq<bool>)
    requires
        forall|j: int| 0 <= j < row.len() ==> !(#[trigger] row[j]),
    ensures
        row_live_count(row) == 0,
    decreases row.len(),
{
    if row.len() > 0 {
        assert forall|j: int| 0 <= j < row.drop_last().len() implies !(#[trigger] row.drop_last()[j]) by {
            assert(row.drop_last()[j] == row[j]);
        }
        lemma_row_all_dead_count(row.drop_last());
    }
}

pub proof fn lemma_all_dead_live_count(g: Seq<Seq<bool>>)
    requires
        all_dead(g),
    ensures
        live_count(g) == 0,
    decreases g.len(),
{
    if g.len() > 0 {
        assert forall|x: int, y: int|
            0 <= x < g.drop_last().len() && 0 <= y < g.drop_last()[x].len() implies !(#[trigger] g.drop_last()[x][y]) by {
            assert(g.drop_last()[x] == g[x]);
        }
        lemma_all_dead_live_count(g.drop_last());
        assert forall|j: int| 0 <= j < g.last().len() implies !(#[trigger] g.last()[j]) by {
            assert(g.last() == g[g.len() - 1]);
        }
        lemma_row_all_dead_count(g.last());
    }
}

pub proof fn lemma_row_live_count_update(row: Seq<bool>, j: int, v: bool)
    requires
        0 <= j < row.len(),
    ensures
        row_live_count(row.update(j, v)) == row_live_count(row) - (if row[j] {
            1int
        } else {
            0
        }) + (if v {
            1int
        } else {
            0
        }),
    decreases row.len(),
{
    let u = row.update(j, v);
    if j == row.len() - 1 {
        assert(u.drop_last() =~= row.drop_last());
        assert(u.last() == v);
    } else {
        assert(u.drop_last() =~= row.drop_last().update(j, v));
        assert(u.last() == row.last());
        lemma_row_live_count_update(row.drop_last(), j, v);
    }
}

pub proof fn lemma_live_count_update_column(g: Seq<Seq<bool>>, x: int, c: Seq<bool>)
    requires
        0 <= x < g.len(),
    ensures
        live_count(g.update(x, c)) == live_count(g) - row_live_count(g[x]) + row_live_count(c),
    decreases g.len(),
{
    let u = g.update(x, c);
    if x == g.len() - 1 {
        assert(u.drop_last() =~= g.drop_last());
        assert(u.last() == c);
    } else {
        assert(u.drop_last() =~= g.drop_last().update(x, c));
        assert(u.last() == g.last());
        assert(g.drop_last()[x] == g[x]);
        lemma_live_count_update_column(g.drop_last(), x, c);
    }
}

/// Setting one cell alive raises the live count by one when the cell was
/// dead, leaves it unchanged otherwise, and leaves the count positive.
pub proof fn lemma_live_count_set_alive(g: Seq<Seq<bool>>, x: int, y: int)
    requires
        0 <= x < g.len(),
        0 <= y < g[x].len(),
    ensures
        live_count(g.update(x, g[x].update(y, true))) == live_count(g) + (if g[x][y] {
            0int
        } else {
            1
        }),
        live_count(g.update(x, g[x].update(y, true))) >= 1,
{
    let u = g.update(x, g[x].update(y, true));
    lemma_live_count_update_column(g, x, g[x].update(y, true));
    lemma_row_live_count_update(g[x], y, true);
    assert(u[x][y]);
    lemma_live_count_pos(u, x, y);
}

} // verus!
