//! The pixel grid and the animation tick.

use fl16_inputmodules::control::ledmatrix::PwmFreqArg;
use fl16_inputmodules::matrix::{Animation, Grid, LedmatrixState, SleepState, HEIGHT, WIDTH};
use fl16_inputmodules::scheduler::advance_animation;

#[test]
fn default_grid_is_dark_and_well_sized() {
    let grid = Grid::default();
    assert_eq!(grid.0.len(), WIDTH);
    for column in &grid.0 {
        assert_eq!(column.len(), HEIGHT);
        assert!(column.iter().all(|v| *v == 0));
    }
}

#[test]
fn set_cell_changes_one_cell() {
    let mut grid = Grid::default();
    grid.set_cell(4, 20, 123);
    for x in 0..WIDTH {
        for y in 0..HEIGHT {
            let expected = if (x, y) == (4, 20) { 123 } else { 0 };
            assert_eq!(grid.0[x][y], expected);
        }
    }
}

#[test]
fn rotate_shifts_every_column_circularly() {
    let mut grid = Grid::default();
    for y in 0..HEIGHT {
        grid.set_cell(0, y, y as u8);
    }
    grid.rotate(1);
    // Rotating down by one: the old last cell comes first.
    assert_eq!(grid.0[0][0], (HEIGHT - 1) as u8);
    for y in 1..HEIGHT {
        assert_eq!(grid.0[0][y], (y - 1) as u8);
    }
    // A full turn restores the column.
    grid.rotate(HEIGHT - 1);
    for y in 0..HEIGHT {
        assert_eq!(grid.0[0][y], y as u8);
    }
}

#[test]
fn clone_copies_all_cells() {
    let mut grid = Grid::default();
    grid.set_cell(1, 2, 3);
    let copy = grid.clone();
    assert_eq!(copy.0, grid.0);
}

fn state_with_animation(frames: u32) -> LedmatrixState {
    LedmatrixState {
        grid: Grid::default(),
        col_buffer: Grid::default(),
        auto_scroll: false,
        brightness: 51,
        sleep_state: SleepState::Awake,
        game: None,
        animation_period: 31_250,
        pwm_freq: PwmFreqArg::P29k,
        debug_mode: false,
        upcoming_frames: Some(Animation { frames_remaining: frames }),
    }
}

#[test]
fn animation_counts_down_and_then_shows_ready() {
    let mut state = state_with_animation(2);
    advance_animation(&mut state);
    assert_eq!(state.upcoming_frames, Some(Animation { frames_remaining: 1 }));
    // The stand-in frame for one remaining frame is the one-percent fill:
    // the first three cells of the first column.
    for x in 0..WIDTH {
        for y in 0..HEIGHT {
            let expected = if x == 0 && y < 3 { 0xFF } else { 0 };
            assert_eq!(state.grid.0[x][y], expected, "cell ({x}, {y})");
        }
    }
    advance_animation(&mut state);
    assert_eq!(state.upcoming_frames, Some(Animation { frames_remaining: 0 }));
    // Exhausted: the ready screen (alternating lit rows) replaces the
    // frames; the marker stays so the command path can cancel it.
    advance_animation(&mut state);
    assert_eq!(state.upcoming_frames, Some(Animation { frames_remaining: 0 }));
    for x in 0..WIDTH {
        for y in 0..HEIGHT {
            let expected = if y % 2 == 0 { 0xFF } else { 0 };
            assert_eq!(state.grid.0[x][y], expected, "cell ({x}, {y})");
        }
    }
}

#[test]
fn auto_scroll_rotates_during_the_tick() {
    let mut state = state_with_animation(0);
    state.upcoming_frames = None;
    state.auto_scroll = true;
    state.grid.set_cell(0, 0, 9);
    advance_animation(&mut state);
    assert_eq!(state.grid.0[0][1], 9);
    assert_eq!(state.grid.0[0][0], 0);
}
