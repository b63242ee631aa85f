//! The automaton interface and its implementations.
//!
//! [`GameOfLife`] is the capability contract: query a cell, toggle a cell,
//! advance one generation, report the board dimensions. [`Mine`] is the
//! grid-based implementation whose contracts tie every operation to the
//! mathematical rule in [`crate::rules`]. [`BrokenGame`] is a deliberately
//! wrong single-cell implementation kept as a teaching artifact; its
//! contracts state exactly the wrong behaviour it has.

use crate::rules::{dead_grid, live_at, live_neighbors, next_cell, next_grid};
use vstd::pervasive::VecAdditionalExecFns;
use vstd::prelude::*;

verus! {

/// A Game-of-Life automaton over a fixed-size board.
///
/// Each implementation chooses its own invariant `inv`; the methods may be
/// called only on values satisfying it and are bound to preserve it.
pub trait GameOfLife {
    /// The implementation's internal invariant, established by its
    /// constructor and preserved by every method.
    spec fn inv(&self) -> bool;

    /// Return `Some(true)` if the cell is alive, `Some(false)` if it is dead,
    /// or `None` if `x` and/or `y` are out of bounds.
    fn is_cell_alive(&self, x: i32, y: i32) -> (r: Option<bool>)
        requires
            self.inv(),
    ;

    /// Swap the given cell from alive to dead or dead to alive.
    ///
    /// If `x` or `y` is out of bounds, this method should do nothing.
    ///
    /// The origin is assumed to be at the top left, i.e. when
    /// `(x, y) == (0, 0)` then the top-left-most cell should be toggled.
    fn toggle_cell(&mut self, x: i32, y: i32)
        requires
            old(self).inv(),
        ensures
            final (self).inv(),
    ;

    /// Execute one timestep; i.e. cause cells to live, be born, or die based
    /// on the amount of neighbors they have.
    fn tick(&mut self)
        requires
            old(self).inv(),
        ensures
            final (self).inv(),
    ;

    /// Return the current width in cells of the game.
    fn width(&self) -> (w: i32)
        requires
            self.inv(),
    ;

    /// Return the current height in cells of the game.
    fn height(&self) -> (h: i32)
        requires
            self.inv(),
    ;
}

/// A blatantly-wrong implementation of GameOfLife, to show the syntax for
/// implementing traits: it owns a single cell, ignores every coordinate, and
/// reports constant dimensions.
pub struct BrokenGame {
    cell_state: bool,
}

impl BrokenGame {
    /// The state of the one cell this implementation owns.
    pub closed spec fn spec_state(&self) -> bool {
        self.cell_state
    }

    /// Construct the single-cell game; its one cell starts alive. The
    /// requested dimensions must be positive, though they are otherwise
    /// ignored.
    pub fn new(game_width: i32, game_height: i32) -> (game: BrokenGame)
        requires
            game_width > 0,
            game_height > 0,
        ensures
            game.spec_state(),
    {
        BrokenGame { cell_state: true }
    }
}

impl GameOfLife for BrokenGame {
    /// The single cell is always a valid state.
    open spec fn inv(&self) -> bool {
        true
    }

    /// Reports the one cell's state whatever coordinates are asked for, even
    /// out-of-bounds ones: wrong on purpose.
    fn is_cell_alive(&self, _x: i32, _y: i32) -> (r: Option<bool>)
        ensures
            r == Some(self.spec_state()),
    {
        Some(self.cell_state)
    }

    /// Toggles the one cell whatever coordinates are asked for.
    fn toggle_cell(&mut self, _x: i32, _y: i32)
        ensures
            final (self).spec_state() == !old(self).spec_state(),
    {
        self.cell_state = !self.cell_state;
    }

    /// Flips the one cell instead of applying the neighbour rule.
    fn tick(&mut self)
        ensures
            final (self).spec_state() == !old(self).spec_state(),
    {
        self.cell_state = !self.cell_state;
    }

    /// Always claims the same width, whatever was requested.
    fn width(&self) -> (w: i32)
        ensures
            w == 49,
    {
        49
    }

    /// Always claims the same height, whatever was requested.
    fn height(&self) -> (h: i32)
        ensures
            h == 40,
    {
        40
    }
}

/// Whether an optional cell state reports a live cell; an absent
/// (out-of-bounds) cell counts as dead.
fn counts_as_live(state: Option<bool>) -> (r: bool)
    ensures
        r == (state == Some(true)),
{
    match state {
        Some(is_alive) => is_alive,
        None => false,
    }
}

/// The grid-based implementation: a fixed `width` by `height` board of
/// boolean cell states, one inner vector per row, owned by the automaton.
pub struct Mine {
    height: i32,
    width: i32,
    cell_states: Vec<Vec<bool>>,
}

impl Mine {
    /// The board's cells as a mathematical grid: one sequence per row.
    pub closed spec fn grid(&self) -> Seq<Seq<bool>> {
        self.cell_states@.map_values(|row: Vec<bool>| row@)
    }

    /// The board's width in cells.
    pub closed spec fn spec_width(&self) -> int {
        self.width as int
    }

    /// The board's height in cells.
    pub closed spec fn spec_height(&self) -> int {
        self.height as int
    }

    /// Whether `(x, y)` addresses a cell of this board.
    pub open spec fn spec_in_bounds(&self, x: int, y: int) -> bool {
        0 <= x < self.spec_width() && 0 <= y < self.spec_height()
    }

    /// Well-formedness: positive dimensions and a `height` by `width` grid.
    pub closed spec fn wf(&self) -> bool {
        &&& 0 < self.width
        &&& 0 < self.height
        &&& self.cell_states@.len() == self.height as int
        &&& forall|y: int|
            0 <= y < self.cell_states@.len() ==> (#[trigger] self.cell_states@[y])@.len()
                == self.width as int
    }

    /// Construct a `game_width` by `game_height` board with every cell dead.
    #[verifier::loop_isolation(false)]
    pub fn new(game_width: i32, game_height: i32) -> (game: Self)
        requires
            game_width > 0,
            game_height > 0,
        ensures
            game.inv(),
            game.spec_width() == game_width as int,
            game.spec_height() == game_height as int,
            game.grid() == dead_grid(game_width as int, game_height as int),
    {
        let mut cell_states: Vec<Vec<bool>> = Vec::new();
        let mut y: i32 = 0;
        while y < game_height
            invariant
                0 <= y <= game_height,
                cell_states@.len() == y as int,
                forall|r: int|
                    0 <= r < y as int ==> (#[trigger] cell_states@[r])@.len() == game_width as int,
                forall|r: int, c: int|
                    0 <= r < y as int && 0 <= c < game_width as int ==> !(#[trigger] cell_states@[r]@[c]),
            decreases game_height - y,
        {
            let mut row: Vec<bool> = Vec::new();
            let mut x: i32 = 0;
            while x < game_width
                invariant
                    0 <= x <= game_width,
                    row@.len() == x as int,
                    forall|c: int| 0 <= c < x as int ==> !(#[trigger] row@[c]),
                decreases game_width - x,
            {
                row.push(false);
                x = x + 1;
            }
            cell_states.push(row);
            y = y + 1;
        }
        let game = Mine { width: game_width, height: game_height, cell_states };
        proof {
            assert(game.grid() =~~= dead_grid(game_width as int, game_height as int));
        }
        game
    }

    /// The number of live cells among the eight neighbours of the in-bounds
    /// cell `(x, y)`, matching [`live_neighbors`] on the current grid.
    /// Neighbour coordinates that fall off the board contribute nothing.
    pub fn get_live_neighbor_count(&mut self, x: i32, y: i32) -> (count: i32)
        requires
            old(self).inv(),
            old(self).spec_in_bounds(x as int, y as int),
        ensures
            *final (self) == *old(self),
            count == live_neighbors(old(self).grid(), x as int, y as int),
    {
        let mut count: i32 = 0;
        if counts_as_live(self.is_cell_alive(x - 1, y - 1)) {
            count = count + 1;
        }
        if counts_as_live(self.is_cell_alive(x, y - 1)) {
            count = count + 1;
        }
        if counts_as_live(self.is_cell_alive(x + 1, y - 1)) {
            count = count + 1;
        }
        if counts_as_live(self.is_cell_alive(x - 1, y)) {
            count = count + 1;
        }
        if counts_as_live(self.is_cell_alive(x + 1, y)) {
            count = count + 1;
        }
        if counts_as_live(self.is_cell_alive(x - 1, y + 1)) {
            count = count + 1;
        }
        if counts_as_live(self.is_cell_alive(x, y + 1)) {
            count = count + 1;
        }
        if counts_as_live(self.is_cell_alive(x + 1, y + 1)) {
            count = count + 1;
        }
        count
    }
}

impl GameOfLife for Mine {
    /// A well-formed board is the invariant.
    open spec fn inv(&self) -> bool {
        self.wf()
    }

    /// In bounds means strictly within `[0, W) x [0, H)`: a coordinate equal
    /// to the width or height is already out of bounds.
    fn is_cell_alive(&self, x: i32, y: i32) -> (r: Option<bool>)
        ensures
            self.spec_in_bounds(x as int, y as int) ==> r == Some(
                live_at(self.grid(), x as int, y as int),
            ),
            !self.spec_in_bounds(x as int, y as int) ==> r is None,
    {
        if x < 0 || y < 0 || x >= self.width || y >= self.height {
            None
        } else {
            Some(self.cell_states[y as usize][x as usize])
        }
    }

    /// Flips the one addressed cell and nothing else; out of bounds, the
    /// whole board is left unchanged.
    #[verifier::loop_isolation(false)]
    fn toggle_cell(&mut self, x: i32, y: i32)
        ensures
            final (self).spec_width() == old(self).spec_width(),
            final (self).spec_height() == old(self).spec_height(),
            old(self).spec_in_bounds(x as int, y as int) ==> final (self).grid() == old(
                self,
            ).grid().update(
                y as int,
                old(self).grid()[y as int].update(
                    x as int,
                    !old(self).grid()[y as int][x as int],
                ),
            ),
            old(self).spec_in_bounds(x as int, y as int) ==> live_at(
                final (self).grid(),
                x as int,
                y as int,
            ) == !live_at(old(self).grid(), x as int, y as int),
            forall|i: int, j: int|
                old(self).spec_in_bounds(i, j) && !(i == x as int && j == y as int)
                    ==> #[trigger] live_at(final (self).grid(), i, j) == live_at(
                    old(self).grid(),
                    i,
                    j,
                ),
            !old(self).spec_in_bounds(x as int, y as int) ==> final (self).grid() == old(
                self,
            ).grid(),
    {
        let cell = self.is_cell_alive(x, y);
        match cell {
            Some(is_alive) => {
                let xu = x as usize;
                let yu = y as usize;
                let w = self.width as usize;
                let mut row: Vec<bool> = Vec::new();
                let mut c: usize = 0;
                while c < w
                    invariant
                        c <= w,
                        row@.len() == c as int,
                        forall|k: int|
                            0 <= k < c as int ==> row@[k] == (if k == x as int {
                                !old(self).grid()[y as int][k]
                            } else {
                                old(self).grid()[y as int][k]
                            }),
                    decreases w - c,
                {
                    let cur = self.cell_states[yu][c];
                    if c == xu {
                        row.push(!cur);
                    } else {
                        row.push(cur);
                    }
                    c = c + 1;
                }
                self.cell_states.set(yu, row);
                proof {
                    let go = old(self).grid();
                    assert(self.grid()[y as int] =~= go[y as int].update(
                        x as int,
                        !go[y as int][x as int],
                    ));
                    assert(self.grid() =~~= go.update(y as int, self.grid()[y as int]));
                }
            },
            None => {},
        }
    }

    /// Installs the next generation of the whole grid in one synchronous
    /// step: every cell of the new grid, last row and column included, is the
    /// successor of its old neighbourhood under the Game-of-Life rule.
    #[verifier::loop_isolation(false)]
    fn tick(&mut self)
        ensures
            final (self).spec_width() == old(self).spec_width(),
            final (self).spec_height() == old(self).spec_height(),
            final (self).grid() == next_grid(old(self).grid()),
    {
        let w = self.width;
        let h = self.height;
        let mut next_board: Vec<Vec<bool>> = Vec::new();
        let mut y: i32 = 0;
        while y < h
            invariant
                *self == *old(self),
                0 <= y <= h,
                next_board@.len() == y as int,
                forall|r: int|
                    0 <= r < y as int ==> (#[trigger] next_board@[r])@.len() == w as int,
                forall|r: int, c: int|
                    0 <= r < y as int && 0 <= c < w as int ==> #[trigger] next_board@[r]@[c]
                        == next_cell(self.grid(), c, r),
            decreases h - y,
        {
            let mut row: Vec<bool> = Vec::new();
            let mut x: i32 = 0;
            while x < w
                invariant
                    *self == *old(self),
                    0 <= y < h,
                    0 <= x <= w,
                    row@.len() == x as int,
                    forall|c: int|
                        0 <= c < x as int ==> row@[c] == next_cell(self.grid(), c, y as int),
                decreases w - x,
            {
                let neighbors = self.get_live_neighbor_count(x, y);
                let alive = counts_as_live(self.is_cell_alive(x, y));
                let lives = if alive {
                    neighbors == 2 || neighbors == 3
                } else {
                    neighbors == 3
                };
                row.push(lives);
                x = x + 1;
            }
            next_board.push(row);
            y = y + 1;
        }
        self.cell_states = next_board;
        proof {
            assert(self.grid() =~~= next_grid(old(self).grid()));
        }
    }

    /// The width set at construction.
    fn width(&self) -> (w: i32)
        ensures
            w == self.spec_width(),
    {
        self.width
    }

    /// The height set at construction.
    fn height(&self) -> (h: i32)
        ensures
            h == self.spec_height(),
    {
        self.height
    }
}

} // verus!
