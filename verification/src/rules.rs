//! The Game-of-Life update rule, stated over mathematical grids.
//!
//! A grid is a `Seq<Seq<bool>>`: a sequence of rows, each row a sequence of
//! cells, `true` meaning alive. The origin is the top-left corner; `x` indexes
//! columns (rightward) and `y` indexes rows (downward).

use vstd::prelude::*;

verus! {

/// Whether `(x, y)` addresses a cell of grid `g`: row `y` exists and column
/// `x` lies within that row.
pub open spec fn in_grid(g: Seq<Seq<bool>>, x: int, y: int) -> bool {
    0 <= y < g.len() && 0 <= x < g[y].len()
}

/// The state of cell `(x, y)`, where every coordinate outside the grid counts
/// as dead: the board does not wrap around.
pub open spec fn live_at(g: Seq<Seq<bool>>, x: int, y: int) -> bool {
    in_grid(g, x, y) && g[y][x]
}

/// One if the cell state counts as alive, zero otherwise.
pub open spec fn count_one(alive: bool) -> int {
    if alive {
        1
    } else {
        0
    }
}

/// The number of live cells among the eight Moore neighbours of `(x, y)`.
/// Neighbours outside the grid are absent and contribute nothing.
pub open spec fn live_neighbors(g: Seq<Seq<bool>>, x: int, y: int) -> int {
    count_one(live_at(g, x - 1, y - 1)) + count_one(live_at(g, x, y - 1)) + count_one(
        live_at(g, x + 1, y - 1),
    ) + count_one(live_at(g, x - 1, y)) + count_one(live_at(g, x + 1, y)) + count_one(
        live_at(g, x - 1, y + 1),
    ) + count_one(live_at(g, x, y + 1)) + count_one(live_at(g, x + 1, y + 1))
}

/// Conway's rule for a single cell, judged entirely on the current grid `g`:
/// a live cell survives with exactly two or three live neighbours, a dead
/// cell is born with exactly three, and every other cell is dead next turn.
pub open spec fn next_cell(g: Seq<Seq<bool>>, x: int, y: int) -> bool {
    if live_at(g, x, y) {
        live_neighbors(g, x, y) == 2 || live_neighbors(g, x, y) == 3
    } else {
        live_neighbors(g, x, y) == 3
    }
}

/// The next generation: a grid of the same shape as `g` in which every cell,
/// the last row and column included, holds its successor under [`next_cell`],
/// all successors judged on `g` itself (a synchronous update).
pub open spec fn next_grid(g: Seq<Seq<bool>>) -> Seq<Seq<bool>> {
    Seq::new(g.len(), |y: int| Seq::new(g[y].len(), |x: int| next_cell(g, x, y)))
}

/// A grid of `h` rows by `w` columns with every cell dead.
pub open spec fn dead_grid(w: int, h: int) -> Seq<Seq<bool>> {
    Seq::new(h as nat, |y: int| Seq::new(w as nat, |x: int| false))
}

/// Every cell of a freshly built dead grid is dead, so a query on any
/// coordinate of a board just constructed reports a dead cell (when in
/// bounds) or nothing (when out of bounds), never a live cell.
pub proof fn lemma_dead_grid_all_dead(w: int, h: int)
    ensures
        forall|x: int, y: int| !live_at(dead_grid(w, h), x, y),
{
}

/// The update is deterministic: the next generation is a function of the
/// current cells alone, so two boards holding the same cells advance to the
/// same cells.
pub proof fn lemma_next_grid_deterministic(g1: Seq<Seq<bool>>, g2: Seq<Seq<bool>>)
    requires
        g1 == g2,
    ensures
        next_grid(g1) == next_grid(g2),
{
}

/// A grid with no live cells is a still life: every cell has zero live
/// neighbours, so the next generation is all dead as well.
pub proof fn lemma_dead_grid_stays_dead(w: int, h: int)
    requires
        0 < w,
        0 < h,
    ensures
        next_grid(dead_grid(w, h)) == dead_grid(w, h),
{
    let g = dead_grid(w, h);
    assert forall|x: int, y: int| !live_at(g, x, y) by {
        if in_grid(g, x, y) {
            assert(!g[y][x]);
        }
    }
    assert forall|y: int| 0 <= y < g.len() implies #[trigger] next_grid(g)[y] =~= g[y] by {
        assert forall|x: int| 0 <= x < g[y].len() implies !next_cell(g, x, y) by {
            assert(live_neighbors(g, x, y) == 0);
        }
    }
    assert(next_grid(g) =~= g);
}

} // verus!
