//! Grid construction used by the LED matrix handlers: the percentage fill,
//! the pre-programmed patterns, the black/white bitmap expansion and the
//! staging of grey columns.
//!
//! The concrete artwork of the pre-programmed patterns and of the sleep
//! glyphs belongs to the pattern-rendering collaborator; the fills here stand
//! in for it with fixed, fully specified contents.

use crate::matrix::{zero_grid, Grid, LedmatrixState, LedmatrixStateV, SleepReason, HEIGHT, LEDS, WIDTH};
use vstd::prelude::*;

verus! {

/// Bytes of a full black/white bitmap: one bit per LED.
pub const DRAW_BYTES: usize = 39;

/// Brightness used by the full-brightness pattern.
pub const BRIGHTNESS_LEVELS: u8 = 255;

/// Bit `k` of a byte, least significant bit first.
pub open spec fn spec_bit(b: u8, k: int) -> bool {
    if k == 0 {
        b & 0x01 != 0
    } else if k == 1 {
        b & 0x02 != 0
    } else if k == 2 {
        b & 0x04 != 0
    } else if k == 3 {
        b & 0x08 != 0
    } else if k == 4 {
        b & 0x10 != 0
    } else if k == 5 {
        b & 0x20 != 0
    } else if k == 6 {
        b & 0x40 != 0
    } else if k == 7 {
        b & 0x80 != 0
    } else {
        false
    }
}

/// Reads bit `k` of a byte, least significant bit first.
pub fn read_bit(b: u8, k: usize) -> (r: bool)
    requires
        k < 8,
    ensures
        r == spec_bit(b, k as int),
{
    match k {
        0 => b & 0x01 != 0,
        1 => b & 0x02 != 0,
        2 => b & 0x04 != 0,
        3 => b & 0x08 != 0,
        4 => b & 0x10 != 0,
        5 => b & 0x20 != 0,
        6 => b & 0x40 != 0,
        _ => b & 0x80 != 0,
    }
}

/// A grid whose cell `(x, y)` holds `rows[y]`.
pub open spec fn rows_grid(rows: Seq<u8>) -> Seq<Seq<u8>> {
    Seq::new(WIDTH as nat, |x: int| rows)
}

/// A grid whose cell `(x, y)` holds `cols[x]`.
pub open spec fn cols_grid(cols: Seq<u8>) -> Seq<Seq<u8>> {
    Seq::new(WIDTH as nat, |x: int| Seq::new(HEIGHT as nat, |y: int| cols[x]))
}

/// Builds the grid whose every column is `rows`.
fn grid_by_rows(rows: &Vec<u8>) -> (g: Grid)
    requires
        rows@.len() == HEIGHT,
    ensures
        g.wf(),
        g@ == rows_grid(rows@),
{
    let mut cols: Vec<Vec<u8>> = Vec::new();
    let mut x: usize = 0;
    while x < WIDTH
        invariant
            x <= WIDTH,
            rows@.len() == HEIGHT,
            cols@.len() == x,
            forall|i: int| 0 <= i < x ==> (#[trigger] cols@[i])@ == rows@,
        decreases WIDTH - x,
    {
        let mut column: Vec<u8> = Vec::new();
        let mut y: usize = 0;
        while y < HEIGHT
            invariant
                y <= HEIGHT,
                rows@.len() == HEIGHT,
                column@ == rows@.subrange(0, y as int),
            decreases HEIGHT - y,
        {
            column.push(rows[y]);
            assert(column@ =~= rows@.subrange(0, y + 1));
            y = y + 1;
        }
        assert(column@ =~= rows@);
        cols.push(column);
        x = x + 1;
    }
    let g = Grid(cols);
    assert(g@ =~= rows_grid(rows@));
    g
}

/// Builds the grid whose column `x` is filled with `colv[x]`.
fn grid_by_cols(colv: &Vec<u8>) -> (g: Grid)
    requires
        colv@.len() == WIDTH,
    ensures
        g.wf(),
        g@ == cols_grid(colv@),
{
    let mut cols: Vec<Vec<u8>> = Vec::new();
    let mut x: usize = 0;
    while x < WIDTH
        invariant
            x <= WIDTH,
            colv@.len() == WIDTH,
            cols@.len() == x,
            forall|i: int| 0 <= i < x ==> (#[trigger] cols@[i])@ == Seq::new(
                HEIGHT as nat,
                |y: int| colv@[i],
            ),
        decreases WIDTH - x,
    {
        let mut column: Vec<u8> = Vec::new();
        let v = colv[x];
        let mut y: usize = 0;
        while y < HEIGHT
            invariant
                y <= HEIGHT,
                column@ == Seq::new(y as nat, |j: int| v),
            decreases HEIGHT - y,
        {
            column.push(v);
            assert(column@ =~= Seq::new((y + 1) as nat, |j: int| v));
            y = y + 1;
        }
        cols.push(column);
        x = x + 1;
    }
    let g = Grid(cols);
    assert(g@ =~= cols_grid(colv@));
    g
}

/// The percentage fill: cell `(x, y)` is lit iff its column-major index is
/// below `p` percent of the LED count.
pub open spec fn percentage_grid(p: int) -> Seq<Seq<u8>> {
    Seq::new(
        WIDTH as nat,
        |x: int|
            Seq::new(
                HEIGHT as nat,
                |y: int|
                    if x * HEIGHT + y < p * LEDS / 100 {
                        0xFFu8
                    } else {
                        0u8
                    },
            ),
    )
}

/// Lights up `p` percent of the screen, column-major from the first column.
pub fn percentage(p: u16) -> (g: Grid)
    ensures
        g.wf(),
        g@ == percentage_grid(p as int),
{
    let threshold: usize = (p as usize) * LEDS / 100;
    let mut cols: Vec<Vec<u8>> = Vec::new();
    let mut x: usize = 0;
    while x < WIDTH
        invariant
            x <= WIDTH,
            threshold == (p as int) * LEDS / 100,
            cols@.len() == x,
            forall|i: int| 0 <= i < x ==> (#[trigger] cols@[i])@ == percentage_grid(p as int)[i],
        decreases WIDTH - x,
    {
        let mut column: Vec<u8> = Vec::new();
        let mut y: usize = 0;
        while y < HEIGHT
            invariant
                y <= HEIGHT,
                x < WIDTH,
                threshold == (p as int) * LEDS / 100,
                column@.len() == y,
            forall|j: int| 0 <= j < y ==> (#[trigger] column@[j]) == percentage_grid(
                p as int,
            )[x as int][j],
            decreases HEIGHT - y,
        {
            let v: u8 = if x * HEIGHT + y < threshold {
                0xFF
            } else {
                0
            };
            column.push(v);
            y = y + 1;
        }
        cols.push(column);
        x = x + 1;
    }
    let g = Grid(cols);
    assert(g@ =~= percentage_grid(p as int));
    g
}

/// Row value of the single gradient: dimmest at the top.
pub open spec fn gradient_row(y: int) -> u8 {
    (y * 7 + 10) as u8
}

/// Renders the gradient pattern.
pub fn gradient() -> (g: Grid)
    ensures
        g.wf(),
        g@ == rows_grid(Seq::new(HEIGHT as nat, |y: int| gradient_row(y))),
{
    let mut rows: Vec<u8> = Vec::new();
    let mut y: usize = 0;
    while y < HEIGHT
        invariant
            y <= HEIGHT,
            rows@.len() == y,
            forall|j: int| 0 <= j < y ==> (#[trigger] rows@[j]) == gradient_row(j),
        decreases HEIGHT - y,
    {
        rows.push((y * 7 + 10) as u8);
        y = y + 1;
    }
    assert(rows@ =~= Seq::new(HEIGHT as nat, |y: int| gradient_row(y)));
    grid_by_rows(&rows)
}

/// Row value of the double gradient: dimmest at both edges.
pub open spec fn double_gradient_row(y: int) -> u8 {
    if y < HEIGHT / 2 {
        (y * 14 + 10) as u8
    } else {
        ((HEIGHT - 1 - y) * 14 + 10) as u8
    }
}

/// Renders the double-gradient pattern.
pub fn double_gradient() -> (g: Grid)
    ensures
        g.wf(),
        g@ == rows_grid(Seq::new(HEIGHT as nat, |y: int| double_gradient_row(y))),
{
    let mut rows: Vec<u8> = Vec::new();
    let mut y: usize = 0;
    while y < HEIGHT
        invariant
            y <= HEIGHT,
            rows@.len() == y,
            forall|j: int| 0 <= j < y ==> (#[trigger] rows@[j]) == double_gradient_row(j),
        decreases HEIGHT - y,
    {
        let v: u8 = if y < HEIGHT / 2 {
            (y * 14 + 10) as u8
        } else {
            ((HEIGHT - 1 - y) * 14 + 10) as u8
        };
        rows.push(v);
        y = y + 1;
    }
    assert(rows@ =~= Seq::new(HEIGHT as nat, |y: int| double_gradient_row(y)));
    grid_by_rows(&rows)
}

/// Column value of the lotus stand-in: alternating lit columns.
pub open spec fn lotus_col(x: int) -> u8 {
    if x % 2 == 0 {
        0xFFu8
    } else {
        0u8
    }
}

/// Renders the lotus pattern stand-in.
pub fn display_lotus() -> (g: Grid)
    ensures
        g.wf(),
        g@ == cols_grid(Seq::new(WIDTH as nat, |x: int| lotus_col(x))),
{
    let mut colv: Vec<u8> = Vec::new();
    let mut x: usize = 0;
    while x < WIDTH
        invariant
            x <= WIDTH,
            colv@.len() == x,
            forall|i: int| 0 <= i < x ==> (#[trigger] colv@[i]) == lotus_col(i),
        decreases WIDTH - x,
    {
        let v: u8 = if x % 2 == 0 {
            0xFF
        } else {
            0
        };
        colv.push(v);
        x = x + 1;
    }
    assert(colv@ =~= Seq::new(WIDTH as nat, |x: int| lotus_col(x)));
    grid_by_cols(&colv)
}

/// Row value of the zigzag stand-in.
pub open spec fn zigzag_row(y: int) -> u8 {
    ((y % 9) * 28) as u8
}

/// Renders the zigzag pattern stand-in.
pub fn zigzag() -> (g: Grid)
    ensures
        g.wf(),
        g@ == rows_grid(Seq::new(HEIGHT as nat, |y: int| zigzag_row(y))),
{
    let mut rows: Vec<u8> = Vec::new();
    let mut y: usize = 0;
    while y < HEIGHT
        invariant
            y <= HEIGHT,
            rows@.len() == y,
            forall|j: int| 0 <= j < y ==> (#[trigger] rows@[j]) == zigzag_row(j),
        decreases HEIGHT - y,
    {
        rows.push(((y % 9) * 28) as u8);
        y = y + 1;
    }
    assert(rows@ =~= Seq::new(HEIGHT as nat, |y: int| zigzag_row(y)));
    grid_by_rows(&rows)
}

/// Column value of the panic glyph stand-in: the inverse striping of the
/// lotus stand-in.
pub open spec fn panic_col(x: int) -> u8 {
    if x % 2 == 0 {
        0u8
    } else {
        0xFFu8
    }
}

/// Renders the panic glyph stand-in.
pub fn display_panic() -> (g: Grid)
    ensures
        g.wf(),
        g@ == cols_grid(Seq::new(WIDTH as nat, |x: int| panic_col(x))),
{
    let mut colv: Vec<u8> = Vec::new();
    let mut x: usize = 0;
    while x < WIDTH
        invariant
            x <= WIDTH,
            colv@.len() == x,
            forall|i: int| 0 <= i < x ==> (#[trigger] colv@[i]) == panic_col(i),
        decreases WIDTH - x,
    {
        let v: u8 = if x % 2 == 0 {
            0
        } else {
            0xFF
        };
        colv.push(v);
        x = x + 1;
    }
    assert(colv@ =~= Seq::new(WIDTH as nat, |x: int| panic_col(x)));
    grid_by_cols(&colv)
}

/// Row value of the second lotus stand-in: alternating lit rows.
pub open spec fn lotus2_row(y: int) -> u8 {
    if y % 2 == 0 {
        0xFFu8
    } else {
        0u8
    }
}

/// Renders the second lotus pattern stand-in.
pub fn display_lotus2() -> (g: Grid)
    ensures
        g.wf(),
        g@ == rows_grid(Seq::new(HEIGHT as nat, |y: int| lotus2_row(y))),
{
    let mut rows: Vec<u8> = Vec::new();
    let mut y: usize = 0;
    while y < HEIGHT
        invariant
            y <= HEIGHT,
            rows@.len() == y,
            forall|j: int| 0 <= j < y ==> (#[trigger] rows@[j]) == lotus2_row(j),
        decreases HEIGHT - y,
    {
        let v: u8 = if y % 2 == 0 {
            0xFF
        } else {
            0
        };
        rows.push(v);
        y = y + 1;
    }
    assert(rows@ =~= Seq::new(HEIGHT as nat, |y: int| lotus2_row(y)));
    grid_by_rows(&rows)
}

/// The grid a black/white bitmap expands to: bit `i` of the stream (byte
/// `i / 8`, least significant bit first) drives the cell with row-major
/// index `i`, fully lit when set.
pub open spec fn draw_grid(vals: Seq<u8>) -> Seq<Seq<u8>> {
    Seq::new(
        WIDTH as nat,
        |x: int|
            Seq::new(
                HEIGHT as nat,
                |y: int|
                    if spec_bit(vals[(y * WIDTH + x) / 8], (y * WIDTH + x) % 8) {
                        0xFFu8
                    } else {
                        0u8
                    },
            ),
    )
}

/// Expands a full black/white bitmap into a grid.
pub fn draw(vals: &Vec<u8>) -> (g: Grid)
    requires
        vals@.len() == DRAW_BYTES,
    ensures
        g.wf(),
        g@ == draw_grid(vals@),
{
    let mut cols: Vec<Vec<u8>> = Vec::new();
    let mut x: usize = 0;
    while x < WIDTH
        invariant
            x <= WIDTH,
            vals@.len() == DRAW_BYTES,
            cols@.len() == x,
            forall|i: int| 0 <= i < x ==> (#[trigger] cols@[i])@ == draw_grid(vals@)[i],
        decreases WIDTH - x,
    {
        let mut column: Vec<u8> = Vec::new();
        let mut y: usize = 0;
        while y < HEIGHT
            invariant
                y <= HEIGHT,
                x < WIDTH,
                vals@.len() == DRAW_BYTES,
                column@.len() == y,
                forall|j: int| 0 <= j < y ==> (#[trigger] column@[j]) == draw_grid(
                    vals@,
                )[x as int][j],
            decreases HEIGHT - y,
        {
            let i: usize = y * WIDTH + x;
            let bit = read_bit(vals[i / 8], i % 8);
            let v: u8 = if bit {
                0xFF
            } else {
                0
            };
            column.push(v);
            y = y + 1;
        }
        cols.push(column);
        x = x + 1;
    }
    let g = Grid(cols);
    assert(g@ =~= draw_grid(vals@));
    g
}

/// The staging buffer after one grey column is staged: column `col` is
/// replaced when it exists, and an out-of-range column is ignored.
pub open spec fn staged_grid(cb: Seq<Seq<u8>>, col: u8, vals: Seq<u8>) -> Seq<Seq<u8>> {
    if col < WIDTH {
        cb.update(col as int, vals)
    } else {
        cb
    }
}

/// Stages one column of grey values into the staging buffer.
pub fn draw_grey_col(grid: &mut Grid, col: u8, vals: &Vec<u8>)
    requires
        old(grid).wf(),
        vals@.len() == HEIGHT,
    ensures
        final(grid).wf(),
        final(grid)@ == staged_grid(old(grid)@, col, vals@),
{
    if (col as usize) < WIDTH {
        let mut column: Vec<u8> = Vec::new();
        let mut y: usize = 0;
        while y < HEIGHT
            invariant
                y <= HEIGHT,
                vals@.len() == HEIGHT,
                column@ == vals@.subrange(0, y as int),
            decreases HEIGHT - y,
        {
            column.push(vals[y]);
            assert(column@ =~= vals@.subrange(0, y + 1));
            y = y + 1;
        }
        assert(column@ =~= vals@);
        grid.0.set(col as usize, column);
        assert(grid@ =~= old(grid)@.update(col as int, vals@));
    }
}

/// Sets the module's brightness; the caller applies it to the LED hardware.
pub fn set_brightness(state: &mut LedmatrixState, brightness: u8)
    ensures
        final(state)@ == (LedmatrixStateV { brightness, ..old(state)@ }),
{
    state.brightness = brightness;
}

/// Code of a sleep reason in the sleep glyph.
pub open spec fn sleep_reason_code(reason: SleepReason) -> u8 {
    match reason {
        SleepReason::Command => 1u8,
        SleepReason::SleepPin => 2u8,
        SleepReason::Timeout => 3u8,
        SleepReason::UsbSuspend => 4u8,
    }
}

/// The glyph shown in debug mode while asleep: a dark grid with a distinct
/// corner code per reason, standing in for the collaborator's artwork.
pub open spec fn sleep_glyph_grid(reason: SleepReason) -> Seq<Seq<u8>> {
    zero_grid().update(0, zero_grid()[0].update(0, sleep_reason_code(reason)))
}

/// Renders the sleep-reason glyph shown in debug mode.
pub fn display_sleep_reason(reason: SleepReason) -> (g: Grid)
    ensures
        g.wf(),
        g@ == sleep_glyph_grid(reason),
{
    let mut g = Grid::default();
    let code: u8 = match reason {
        SleepReason::Command => 1,
        SleepReason::SleepPin => 2,
        SleepReason::Timeout => 3,
        SleepReason::UsbSuspend => 4,
    };
    g.set_cell(0, 0, code);
    assert(g@ =~= sleep_glyph_grid(reason));
    g
}

} // verus!
