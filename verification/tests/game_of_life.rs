use game_of_life::BrokenGame;
use game_of_life::GameOfLife;
use game_of_life::Mine;

/// Collect the whole board state through `is_cell_alive`.
fn snapshot(game: &Mine, width: i32, height: i32) -> Vec<Vec<bool>> {
    let mut rows = Vec::new();
    for y in 0..height {
        let mut row = Vec::new();
        for x in 0..width {
            row.push(game.is_cell_alive(x, y).unwrap());
        }
        rows.push(row);
    }
    rows
}

/// Turn on the given cells of a fresh board.
fn set_live(game: &mut Mine, cells: &[(i32, i32)]) {
    for &(x, y) in cells {
        game.toggle_cell(x, y);
    }
}

/// A basic test to show you how to write tests in Rust, in case you want to write your own.
#[test]
fn broken_game_is_definitely_broken() {
    let mut game = BrokenGame::new(49, 40);
    let cell_0_0_orig_val = game.is_cell_alive(0, 0);

    // change a totally different cell from 0,0
    game.toggle_cell(1, 1);

    let cell_0_0_new_val = game.is_cell_alive(0, 0);
    // now we expect cell 0,0's liveness to have changed because we know that BrokenGame
    // is a totally broken implementation. If the two values are equal, then something seriously
    // weird is going on.
    // Tip: `assert_ne!` means "assert not equal" - normally using `assert!` or `assert_eq!` is typical.
    assert_ne!(
        cell_0_0_orig_val, cell_0_0_new_val,
        "Uh oh, cell 0,0 failed to change from its \
        original value even though we tried to mutate another cell, so BrokenGame is may not be \
        broken anymore!?"
    );
}

#[test]
fn broken_game_constant_dimensions() {
    let game = BrokenGame::new(3, 7);
    assert_eq!(game.width(), 49);
    assert_eq!(game.height(), 40);
}

#[test]
fn new_board_is_all_dead() {
    let game = Mine::new(4, 3);
    for y in 0..3 {
        for x in 0..4 {
            assert_eq!(game.is_cell_alive(x, y), Some(false));
        }
    }
}

#[test]
fn dimensions_are_as_constructed() {
    let game = Mine::new(6, 11);
    assert_eq!(game.width(), 6);
    assert_eq!(game.height(), 11);
}

#[test]
fn toggle_flips_only_the_addressed_cell() {
    let mut game = Mine::new(4, 3);
    let before = snapshot(&game, 4, 3);
    assert_eq!(game.is_cell_alive(1, 2), Some(false));

    game.toggle_cell(1, 2);
    assert_eq!(game.is_cell_alive(1, 2), Some(true));
    let after = snapshot(&game, 4, 3);
    for y in 0..3usize {
        for x in 0..4usize {
            if (x, y) == (1, 2) {
                assert_ne!(after[y][x], before[y][x]);
            } else {
                assert_eq!(after[y][x], before[y][x]);
            }
        }
    }

    game.toggle_cell(1, 2);
    assert_eq!(game.is_cell_alive(1, 2), Some(false));
    assert_eq!(snapshot(&game, 4, 3), before);
}

#[test]
fn out_of_bounds_query_returns_none() {
    let game = Mine::new(4, 3);
    assert_eq!(game.is_cell_alive(-1, 0), None);
    assert_eq!(game.is_cell_alive(0, -1), None);
    assert_eq!(game.is_cell_alive(4, 0), None);
    assert_eq!(game.is_cell_alive(0, 3), None);
    assert_eq!(game.is_cell_alive(7, 9), None);
    // one past the last valid index is out of bounds; the last index is not
    assert_eq!(game.is_cell_alive(3, 2), Some(false));
}

#[test]
fn out_of_bounds_toggle_is_a_no_op() {
    let mut game = Mine::new(4, 3);
    set_live(&mut game, &[(0, 0), (2, 1), (3, 2)]);
    let before = snapshot(&game, 4, 3);
    game.toggle_cell(-1, 0);
    game.toggle_cell(0, -1);
    game.toggle_cell(4, 0);
    game.toggle_cell(0, 3);
    game.toggle_cell(100, 100);
    assert_eq!(snapshot(&game, 4, 3), before);
}

#[test]
fn tick_is_deterministic() {
    let blinker = [(1, 2), (2, 2), (3, 2)];
    let mut first = Mine::new(5, 5);
    let mut second = Mine::new(5, 5);
    set_live(&mut first, &blinker);
    set_live(&mut second, &blinker);
    assert_eq!(snapshot(&first, 5, 5), snapshot(&second, 5, 5));

    first.tick();
    second.tick();
    assert_eq!(snapshot(&first, 5, 5), snapshot(&second, 5, 5));
}

#[test]
fn all_dead_board_stays_all_dead() {
    let mut game = Mine::new(3, 3);
    game.tick();
    for y in 0..3 {
        for x in 0..3 {
            assert_eq!(game.is_cell_alive(x, y), Some(false));
        }
    }
}

#[test]
fn block_is_a_still_life() {
    let block = [(1, 1), (1, 2), (2, 1), (2, 2)];
    let mut game = Mine::new(4, 4);
    set_live(&mut game, &block);

    game.tick();
    for y in 0..4 {
        for x in 0..4 {
            let expected = block.contains(&(x, y));
            assert_eq!(game.is_cell_alive(x, y), Some(expected));
        }
    }
}

#[test]
fn blinker_oscillates_with_period_two() {
    let horizontal = [(1, 2), (2, 2), (3, 2)];
    let vertical = [(2, 1), (2, 2), (2, 3)];
    let mut game = Mine::new(5, 5);
    set_live(&mut game, &horizontal);

    game.tick();
    for y in 0..5 {
        for x in 0..5 {
            let expected = vertical.contains(&(x, y));
            assert_eq!(game.is_cell_alive(x, y), Some(expected));
        }
    }

    game.tick();
    for y in 0..5 {
        for x in 0..5 {
            let expected = horizontal.contains(&(x, y));
            assert_eq!(game.is_cell_alive(x, y), Some(expected));
        }
    }
}

#[test]
fn corner_cell_is_evaluated_by_tick() {
    // a block in the bottom-right corner: a still life that survives only if
    // the last row and column are part of the update
    let block = [(2, 2), (2, 3), (3, 2), (3, 3)];
    let mut game = Mine::new(4, 4);
    set_live(&mut game, &block);

    game.tick();
    assert_eq!(game.is_cell_alive(3, 3), Some(true));
    for y in 0..4 {
        for x in 0..4 {
            let expected = block.contains(&(x, y));
            assert_eq!(game.is_cell_alive(x, y), Some(expected));
        }
    }
}

#[test]
fn lone_corner_cell_dies_of_isolation() {
    let mut game = Mine::new(4, 4);
    game.toggle_cell(3, 3);
    game.tick();
    for y in 0..4 {
        for x in 0..4 {
            assert_eq!(game.is_cell_alive(x, y), Some(false));
        }
    }
}

#[test]
fn neighbor_counts_around_a_block() {
    let mut game = Mine::new(4, 4);
    set_live(&mut game, &[(1, 1), (1, 2), (2, 1), (2, 2)]);
    assert_eq!(game.get_live_neighbor_count(1, 1), 3);
    assert_eq!(game.get_live_neighbor_count(2, 2), 3);
    assert_eq!(game.get_live_neighbor_count(0, 0), 1);
    assert_eq!(game.get_live_neighbor_count(3, 3), 1);
    assert_eq!(game.get_live_neighbor_count(0, 3), 1);
}

#[test]
fn smallest_board_works() {
    let mut game = Mine::new(1, 1);
    assert_eq!(game.is_cell_alive(0, 0), Some(false));
    game.toggle_cell(0, 0);
    assert_eq!(game.is_cell_alive(0, 0), Some(true));
    // a lone cell has no neighbours and dies
    game.tick();
    assert_eq!(game.is_cell_alive(0, 0), Some(false));
}
