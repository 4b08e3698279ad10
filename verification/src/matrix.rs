//! Data model of the LED matrix module: the pixel grid, the module state and
//! the sleep bookkeeping types.

use crate::control::ledmatrix::PwmFreqArg;
use vstd::prelude::*;

verus! {

/// Number of LED columns.
pub const WIDTH: usize = 9;

/// Number of LED rows.
pub const HEIGHT: usize = 34;

/// Total number of LEDs.
pub const LEDS: usize = WIDTH * HEIGHT;

/// One frame of per-LED intensities: WIDTH columns of HEIGHT cells, one byte
/// of intensity per cell.
pub struct Grid(pub Vec<Vec<u8>>);

impl View for Grid {
    type V = Seq<Seq<u8>>;

    open spec fn view(&self) -> Seq<Seq<u8>> {
        Seq::new(self.0@.len(), |x: int| self.0@[x]@)
    }
}

/// The all-zero (dark) grid.
pub open spec fn zero_grid() -> Seq<Seq<u8>> {
    Seq::new(WIDTH as nat, |x: int| Seq::new(HEIGHT as nat, |y: int| 0u8))
}

/// A grid content of full size: WIDTH columns of HEIGHT cells each.
pub open spec fn grid_wf(g: Seq<Seq<u8>>) -> bool {
    g.len() == WIDTH && forall|x: int| 0 <= x < WIDTH ==> (#[trigger] g[x]).len() == HEIGHT
}

/// Builds one all-zero column of HEIGHT cells.
fn zero_column() -> (c: Vec<u8>)
    ensures
        c@ == Seq::new(HEIGHT as nat, |y: int| 0u8),
{
    let mut c: Vec<u8> = Vec::new();
    let mut y: usize = 0;
    while y < HEIGHT
        invariant
            y <= HEIGHT,
            c@ == Seq::new(y as nat, |i: int| 0u8),
        decreases HEIGHT - y,
    {
        c.push(0);
        assert(c@ =~= Seq::new((y + 1) as nat, |i: int| 0u8));
        y = y + 1;
    }
    assert(c@ =~= Seq::new(HEIGHT as nat, |i: int| 0u8));
    c
}

impl Grid {
    /// Well-formedness: exactly WIDTH columns of HEIGHT cells.
    pub open spec fn wf(&self) -> bool {
        grid_wf(self@)
    }

    /// Sets a single cell; cells outside the grid are left to the caller's
    /// bounds checks.
    pub fn set_cell(&mut self, x: usize, y: usize, v: u8)
        requires
            old(self).wf(),
            x < WIDTH,
            y < HEIGHT,
        ensures
            final(self).wf(),
            final(self)@ == old(self)@.update(
                x as int,
                old(self)@[x as int].update(y as int, v),
            ),
    {
        assert(self@[x as int] == self.0@[x as int]@);
        assert(self@[x as int].len() == HEIGHT);
        let column: &mut Vec<u8> = &mut self.0[x];
        column.set(y, v);
        assert(final(self)@ =~= old(self)@.update(
            x as int,
            old(self)@[x as int].update(y as int, v),
        ));
    }

    /// Circularly shifts every column downwards by `rotations` cells, the
    /// shift used by auto-scroll.
    pub fn rotate(&mut self, rotations: usize)
        requires
            old(self).wf(),
            rotations <= HEIGHT,
        ensures
            final(self).wf(),
            forall|x: int, y: int| 0 <= x < WIDTH && 0 <= y < HEIGHT ==> final(self)@[x][y]
                == old(self)@[x][(y + HEIGHT - rotations) % (HEIGHT as int)],
    {
        let ghost g0 = self@;
        let mut x: usize = 0;
        while x < WIDTH
            invariant
                x <= WIDTH,
                rotations <= HEIGHT,
                self@.len() == WIDTH,
                forall|i: int| x <= i < WIDTH ==> self@[i] == g0[i],
                grid_wf(g0),
                forall|i: int, y: int| 0 <= i < x && 0 <= y < HEIGHT ==> (#[trigger] self@[i][y])
                    == g0[i][(y + HEIGHT - rotations) % (HEIGHT as int)],
                forall|i: int| 0 <= i < x ==> (#[trigger] self@[i]).len() == HEIGHT,
            decreases WIDTH - x,
        {
            let mut column: Vec<u8> = Vec::new();
            let mut y: usize = 0;
            while y < HEIGHT
                invariant
                    y <= HEIGHT,
                    x < WIDTH,
                    rotations <= HEIGHT,
                    self@.len() == WIDTH,
                    self@[x as int] == g0[x as int],
                    grid_wf(g0),
                    column@.len() == y,
                    forall|j: int| 0 <= j < y ==> (#[trigger] column@[j])
                        == g0[x as int][(j + HEIGHT - rotations) % (HEIGHT as int)],
                decreases HEIGHT - y,
            {
                let src: usize = (y + HEIGHT - rotations) % HEIGHT;
                column.push(self.0[x][src]);
                y = y + 1;
            }
            let ghost before = self@;
            self.0.set(x, column);
            assert(forall|i: int| 0 <= i < WIDTH && i != x ==> self@[i] == before[i]);
            assert(self@[x as int] == column@);
            assert forall|i: int, y: int|
                0 <= i <= x && 0 <= y < HEIGHT implies #[trigger] self@[i][y] == g0[i][(y + HEIGHT
                - rotations) % (HEIGHT as int)] by {
                if i < x {
                    assert(self@[i] == before[i]);
                    assert(before[i][y] == g0[i][(y + HEIGHT - rotations) % (HEIGHT as int)]);
                } else {
                    assert(self@[i] == column@);
                }
            };
            assert forall|i: int| 0 <= i <= x implies (#[trigger] self@[i]).len() == HEIGHT by {
                if i < x {
                    assert(self@[i] == before[i]);
                    assert(before[i].len() == HEIGHT);
                } else {
                    assert(self@[i] == column@);
                }
            };
            x = x + 1;
        }
    }
}

impl Clone for Grid {
    /// A clone has exactly the same cells.
    fn clone(&self) -> (r: Grid)
        ensures
            r@ == self@,
    {
        let mut cols: Vec<Vec<u8>> = Vec::new();
        let mut x: usize = 0;
        while x < self.0.len()
            invariant
                x <= self.0@.len(),
                cols@.len() == x,
                forall|i: int| 0 <= i < x ==> (#[trigger] cols@[i])@ == self@[i],
            decreases self.0@.len() - x,
        {
            let mut column: Vec<u8> = Vec::new();
            let mut y: usize = 0;
            while y < self.0[x].len()
                invariant
                    x < self.0@.len(),
                    y <= self.0@[x as int]@.len(),
                    column@ == self@[x as int].subrange(0, y as int),
                decreases self.0@[x as int]@.len() - y,
            {
                column.push(self.0[x][y]);
                assert(column@ =~= self@[x as int].subrange(0, y + 1));
                y = y + 1;
            }
            assert(column@ =~= self@[x as int]);
            cols.push(column);
            x = x + 1;
        }
        let r = Grid(cols);
        assert(r@ =~= self@);
        r
    }
}

impl Default for Grid {
    /// The default grid is dark.
    fn default() -> (g: Grid)
        ensures
            g@ == zero_grid(),
            g.wf(),
    {
        let mut cols: Vec<Vec<u8>> = Vec::new();
        let mut x: usize = 0;
        while x < WIDTH
            invariant
                x <= WIDTH,
                cols@.len() == x,
                forall|i: int| 0 <= i < x ==> (#[trigger] cols@[i])@ == Seq::new(
                    HEIGHT as nat,
                    |y: int| 0u8,
                ),
            decreases WIDTH - x,
        {
            cols.push(zero_column());
            x = x + 1;
        }
        let g = Grid(cols);
        assert(g@ =~= zero_grid());
        g
    }
}

/// Why the device is asleep: at most one of these four independent sources is
/// the active reason at any time.
#[derive(Copy, Clone, Debug, PartialEq, Eq, Structural)]
pub enum SleepReason {
    Command,
    SleepPin,
    Timeout,
    UsbSuspend,
}

/// Whether the module is asleep; a sleeping module owns the grid and
/// brightness captured when sleep began, to restore them exactly once on wake.
pub enum SleepState {
    Awake,
    Sleeping((Grid, u8)),
}

/// Mathematical model of `SleepState`.
pub enum SleepStateV {
    Awake,
    Sleeping(Seq<Seq<u8>>, u8),
}

impl View for SleepState {
    type V = SleepStateV;

    open spec fn view(&self) -> SleepStateV {
        match self {
            SleepState::Awake => SleepStateV::Awake,
            SleepState::Sleeping((g, b)) => SleepStateV::Sleeping(g@, *b),
        }
    }
}

impl SleepState {
    pub fn is_awake(&self) -> (r: bool)
        ensures
            r == (self@ is Awake),
    {
        match self {
            SleepState::Awake => true,
            SleepState::Sleeping(_) => false,
        }
    }
}

/// Snake runs its own board; the core keeps only the seed it was started
/// from. The game rules live with the game collaborator.
#[derive(Copy, Clone, PartialEq, Eq, Structural, Debug)]
pub struct SnakeState {
    pub seed: u8,
}

/// Pong: the core reads `speed` to derive the step cadence.
#[derive(Copy, Clone, PartialEq, Eq, Structural, Debug)]
pub struct PongState {
    pub seed: u8,
    pub speed: u64,
}

/// Game of Life: the core keeps the starting parameter and seed.
#[derive(Copy, Clone, PartialEq, Eq, Structural, Debug)]
pub struct GameOfLifeState {
    pub param: crate::control::GameOfLifeStartParam,
    pub seed: u8,
}

/// State of the currently active game, if any.
#[derive(Copy, Clone, PartialEq, Eq, Structural, Debug)]
pub enum GameState {
    Snake(SnakeState),
    Pong(PongState),
    GameOfLife(GameOfLifeState),
}

/// A pending animation; the frames themselves come from the animation
/// collaborator, the core tracks how many remain.
#[derive(Copy, Clone, PartialEq, Eq, Structural, Debug)]
pub struct Animation {
    pub frames_remaining: u32,
}

/// State of the LED matrix module.
pub struct LedmatrixState {
    /// Currently displayed grid.
    pub grid: Grid,
    /// Staging buffer accumulating column updates until the next commit.
    pub col_buffer: Grid,
    /// Automatically advance pixels along the vertical axis each frame.
    pub auto_scroll: bool,
    /// LED brightness out of 255.
    pub brightness: u8,
    /// Current sleep state.
    pub sleep_state: SleepState,
    /// State of the current game, if any.
    pub game: Option<GameState>,
    /// Animation period in microsecond ticks, 1000 per externally visible
    /// millisecond.
    pub animation_period: u64,
    /// Current LED PWM frequency.
    pub pwm_freq: PwmFreqArg,
    /// Whether debug mode is active: instant startup and sleep transitions, a
    /// visible sleep glyph instead of powering the LEDs down, no automatic
    /// sleeping.
    pub debug_mode: bool,
    /// Frames of the startup animation not yet shown, if any.
    pub upcoming_frames: Option<Animation>,
}

/// Mathematical model of `LedmatrixState`.
pub struct LedmatrixStateV {
    pub grid: Seq<Seq<u8>>,
    pub col_buffer: Seq<Seq<u8>>,
    pub auto_scroll: bool,
    pub brightness: u8,
    pub sleep_state: SleepStateV,
    pub game: Option<GameState>,
    pub animation_period: u64,
    pub pwm_freq: PwmFreqArg,
    pub debug_mode: bool,
    pub upcoming_frames: Option<Animation>,
}

impl View for LedmatrixState {
    type V = LedmatrixStateV;

    open spec fn view(&self) -> LedmatrixStateV {
        LedmatrixStateV {
            grid: self.grid@,
            col_buffer: self.col_buffer@,
            auto_scroll: self.auto_scroll,
            brightness: self.brightness,
            sleep_state: self.sleep_state@,
            game: self.game,
            animation_period: self.animation_period,
            pwm_freq: self.pwm_freq,
            debug_mode: self.debug_mode,
            upcoming_frames: self.upcoming_frames,
        }
    }
}

impl LedmatrixState {
    /// Both grids of a well-formed state have full size.
    pub open spec fn wf(&self) -> bool {
        &&& grid_wf(self@.grid)
        &&& grid_wf(self@.col_buffer)
        &&& (self@.sleep_state matches SleepStateV::Sleeping(g, _) ==> grid_wf(g))
    }
}

} // verus!
