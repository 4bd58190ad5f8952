use crate::rng::random_u64;
use vstd::prelude::*;

verus! {

/// Number of grid cells along the horizontal axis.
pub const GRID_WIDTH: i64 = 5;
/// Number of grid cells along the vertical axis.
pub const GRID_HEIGHT: i64 = 5;
/// Side length of one grid cell, in pixels.
pub const BLOCK_SIZE: i64 = 100;

/// Direction of the square's next scheduled slide; `Stop` means it stays put.
#[derive(Clone, Copy, Debug, PartialEq, Eq, Structural)]
pub enum Direction {
    UpDir,
    DownDir,
    LeftDir,
    RightDir,
    Stop,
}

/// The whole state of the game: the square's cell, the grid bounds, the two
/// behaviour switches, the pending slide direction, and the two tick counters
/// that schedule jitter and slide.
#[derive(Clone, Copy, Debug, PartialEq, Eq, Structural)]
pub struct GameState {
    pub x: i64,
    pub y: i64,
    pub max_x: i64,
    pub max_y: i64,
    /// false: the square stops at the edges; true: it wraps around.
    pub edge_behav: bool,
    /// true: the square jitters one cell in a random direction on schedule.
    pub jitter_behav: bool,
    /// Direction of movement in the next slide tick; `Stop` means no movement.
    pub next_mov: Direction,
    pub jitter_counter: usize,
    pub slide_counter: usize,
}

/// One coordinate after a move in stopping mode: the sum, clamped to
/// `[0, bound - 1]`.
pub open spec fn clamp_step(v: int, d: int, bound: int) -> int {
    let s = v + d;
    let lo = if s < 0 { 0 } else { s };
    if lo > bound - 1 {
        bound - 1
    } else {
        lo
    }
}

/// One coordinate after a move in wrapping mode: past the upper edge it
/// resets to 0, below 0 it resets to the upper edge, otherwise the sum.
pub open spec fn wrap_step(v: int, d: int, bound: int) -> int {
    let s = v + d;
    if s > bound - 1 {
        0
    } else if s < 0 {
        bound - 1
    } else {
        s
    }
}

impl GameState {
    /// The grid has at least one cell in each direction.
    pub open spec fn grid_ok(self) -> bool {
        1 <= self.max_x && 1 <= self.max_y
    }

    /// The square sits on a cell of the grid.
    pub open spec fn in_grid(self) -> bool {
        0 <= self.x < self.max_x && 0 <= self.y < self.max_y
    }

    /// The tick counters never run ahead of the period.
    pub open spec fn counters_ok(self) -> bool {
        self.jitter_counter <= 11 && self.slide_counter <= 11
    }

    /// The invariant every reachable state satisfies.
    pub open spec fn well_formed(self) -> bool {
        self.grid_ok() && self.in_grid() && self.counters_ok()
    }

    /// The state with the edge mode flipped and everything else kept.
    pub open spec fn with_edge_flipped(self) -> GameState {
        GameState { edge_behav: !self.edge_behav, ..self }
    }

    /// The state with the jitter mode flipped and everything else kept.
    pub open spec fn with_jitter_flipped(self) -> GameState {
        GameState { jitter_behav: !self.jitter_behav, ..self }
    }

    /// The state after a jitter driven by the raw random value `r`: one cell
    /// in one of the four directions when jittering is on, unchanged when it
    /// is off.
    pub open spec fn jittered(self, r: u64) -> GameState {
        if !self.jitter_behav {
            self
        } else if r % 4 == 0 {
            self.stepped(1, 0)
        } else if r % 4 == 1 {
            self.stepped(-1, 0)
        } else if r % 4 == 2 {
            self.stepped(0, 1)
        } else {
            self.stepped(0, -1)
        }
    }

    /// The state after the scheduled slide: one cell in the pending
    /// direction, or unchanged when none is pending.
    pub open spec fn slid(self) -> GameState {
        match self.next_mov {
            Direction::UpDir => self.stepped(0, -1),
            Direction::DownDir => self.stepped(0, 1),
            Direction::LeftDir => self.stepped(-1, 0),
            Direction::RightDir => self.stepped(1, 0),
            Direction::Stop => self,
        }
    }

    /// The state after one update tick, with `r` the raw random value the
    /// tick would consume: each counter advances, and on reaching the period
    /// of 12 it resets and fires its move.
    pub open spec fn tick(self, r: u64) -> GameState {
        let a = if self.jitter_counter + 1 == 12 {
            (GameState { jitter_counter: 0, ..self }).jittered(r)
        } else {
            GameState { jitter_counter: (self.jitter_counter + 1) as usize, ..self }
        };
        if a.slide_counter + 1 == 12 {
            (GameState { slide_counter: 0, ..a }).slid()
        } else {
            GameState { slide_counter: (a.slide_counter + 1) as usize, ..a }
        }
    }

    /// The state after moving by `(dx, dy)`, in whichever edge mode is set.
    pub open spec fn stepped(self, dx: int, dy: int) -> GameState {
        if self.edge_behav {
            GameState {
                x: wrap_step(self.x as int, dx, self.max_x as int) as i64,
                y: wrap_step(self.y as int, dy, self.max_y as int) as i64,
                ..self
            }
        } else {
            GameState {
                x: clamp_step(self.x as int, dx, self.max_x as int) as i64,
                y: clamp_step(self.y as int, dy, self.max_y as int) as i64,
                ..self
            }
        }
    }

    pub fn new(
        x: i64,
        y: i64,
        max_x: i64,
        max_y: i64,
        edge_behav: bool,
        jitter_behav: bool,
    ) -> (s: GameState)
        ensures
            s == (GameState {
                x,
                y,
                max_x,
                max_y,
                edge_behav,
                jitter_behav,
                next_mov: Direction::Stop,
                jitter_counter: 11,
                slide_counter: 11,
            }),
    {
        GameState {
            x,
            y,
            max_x,
            max_y,
            edge_behav,
            jitter_behav,
            next_mov: Direction::Stop,
            jitter_counter: 11,
            slide_counter: 11,
        }
    }

    /// Move the square by `(x, y)` cells, stopping at or wrapping around the
    /// edges according to `edge_behav`. Whatever cell it started from, it
    /// lands on the grid.
    pub fn mov(&mut self, x: i64, y: i64)
        requires
            old(self).grid_ok(),
            i64::MIN <= old(self).x + x <= i64::MAX,
            i64::MIN <= old(self).y + y <= i64::MAX,
        ensures
            *final(self) == old(self).stepped(x as int, y as int),
            final(self).in_grid(),
    {
        if !self.edge_behav {
            // stopping behavior; `max_x - 1` because the range is [0, len-1]
            let sx: i64 = self.x + x;
            let lx: i64 = if sx < 0 { 0 } else { sx };
            self.x = if lx > self.max_x - 1 { self.max_x - 1 } else { lx };
            let sy: i64 = self.y + y;
            let ly: i64 = if sy < 0 { 0 } else { sy };
            self.y = if ly > self.max_y - 1 { self.max_y - 1 } else { ly };
        } else {
            // wrapping behavior
            let sx: i64 = self.x + x;
            self.x = if sx > self.max_x - 1 {
                0
            } else if sx < 0 {
                self.max_x - 1
            } else {
                sx
            };
            let sy: i64 = self.y + y;
            self.y = if sy > self.max_y - 1 {
                0
            } else if sy < 0 {
                self.max_y - 1
            } else {
                sy
            };
        }
    }

    /// Flip between stopping and wrapping behaviour.
    pub fn change_edge_behav(&mut self)
        ensures
            *final(self) == old(self).with_edge_flipped(),
    {
        self.edge_behav = !self.edge_behav;
    }

    /// Start or stop jittering.
    pub fn change_jitter_behav(&mut self)
        ensures
            *final(self) == old(self).with_jitter_flipped(),
    {
        self.jitter_behav = !self.jitter_behav;
    }

    /// Jitter as driven by the raw random value `r`: when jittering is on,
    /// move one cell in the direction `r % 4` picks; otherwise do nothing.
    pub fn jitter_with(&mut self, r: u64)
        requires
            old(self).grid_ok(),
            i64::MIN < old(self).x < i64::MAX,
            i64::MIN < old(self).y < i64::MAX,
        ensures
            *final(self) == old(self).jittered(r),
            old(self).in_grid() ==> final(self).in_grid(),
    {
        if self.jitter_behav {
            let m: u64 = r % 4;  // the remainder puts the draw in the range 0-3
            if m == 0 {
                self.mov(1, 0);
            } else if m == 1 {
                self.mov(-1, 0);
            } else if m == 2 {
                self.mov(0, 1);
            } else {
                self.mov(0, -1);
            }
        }
    }

    /// Jitter with a fresh random draw. Whatever the draw, the result is one
    /// of the four one-cell moves when jittering is on, and the state is
    /// untouched when it is off.
    pub fn jitter(&mut self)
        requires
            old(self).grid_ok(),
            i64::MIN < old(self).x < i64::MAX,
            i64::MIN < old(self).y < i64::MAX,
        ensures
            exists|r: u64| *final(self) == old(self).jittered(r),
            !old(self).jitter_behav ==> *final(self) == *old(self),
            old(self).jitter_behav ==> (*final(self) == old(self).stepped(1, 0)
                || *final(self) == old(self).stepped(-1, 0)
                || *final(self) == old(self).stepped(0, 1)
                || *final(self) == old(self).stepped(0, -1)),
            old(self).in_grid() ==> final(self).in_grid(),
    {
        let r: u64 = random_u64();
        self.jitter_with(r);
    }

    /// One update tick, as driven by the raw random value `r`: advance both
    /// counters, and at the period of 12 reset them and fire the jitter and
    /// the pending slide.
    pub fn update_with(&mut self, r: u64)
        requires
            old(self).well_formed(),
        ensures
            *final(self) == old(self).tick(r),
            final(self).well_formed(),
    {
        self.jitter_counter += 1;
        if self.jitter_counter == 12 {
            self.jitter_counter = 0;
            self.jitter_with(r);
        }
        self.slide_counter += 1;
        if self.slide_counter == 12 {
            self.slide_counter = 0;
            match self.next_mov {
                Direction::UpDir => self.mov(0, -1),
                Direction::DownDir => self.mov(0, 1),
                Direction::LeftDir => self.mov(-1, 0),
                Direction::RightDir => self.mov(1, 0),
                Direction::Stop => {},
            }
        }
    }

    /// One update tick with a fresh random draw. Whatever the draw, the new
    /// state is a tick of the old one, and the invariant is kept.
    pub fn update(&mut self)
        requires
            old(self).well_formed(),
        ensures
            exists|r: u64| *final(self) == old(self).tick(r),
            final(self).well_formed(),
    {
        let r: u64 = random_u64();
        self.update_with(r);
    }

    /// The rectangle the render step draws: the square's cell scaled by
    /// `BLOCK_SIZE`, as x, y, width and height in pixels.
    pub fn block_rect(&self) -> (r: (i64, i64, i64, i64))
        requires
            i64::MIN <= self.x * BLOCK_SIZE <= i64::MAX,
            i64::MIN <= self.y * BLOCK_SIZE <= i64::MAX,
        ensures
            r.0 == self.x * BLOCK_SIZE,
            r.1 == self.y * BLOCK_SIZE,
            r.2 == BLOCK_SIZE,
            r.3 == BLOCK_SIZE,
    {
        (self.x * BLOCK_SIZE, self.y * BLOCK_SIZE, BLOCK_SIZE, BLOCK_SIZE)
    }
}

/// Law: in stopping mode a move from anywhere lands in `[0, bound)`.
pub proof fn lemma_clamp_step_in_range(v: int, d: int, bound: int)
    requires
        1 <= bound,
    ensures
        0 <= clamp_step(v, d, bound) < bound,
{
}

/// Law: in wrapping mode a move from anywhere lands in `[0, bound)`.
pub proof fn lemma_wrap_step_in_range(v: int, d: int, bound: int)
    requires
        1 <= bound,
    ensures
        0 <= wrap_step(v, d, bound) < bound,
{
}

/// Law: in wrapping mode a step below 0 lands on `bound - 1`, and a step
/// past `bound - 1` lands on 0.
pub proof fn lemma_wrap_step_edges(bound: int)
    requires
        1 <= bound,
    ensures
        wrap_step(0, -1, bound) == bound - 1,
        wrap_step(bound - 1, 1, bound) == 0,
{
}

/// Law: whichever edge mode is set, a move from a well-sized grid lands on
/// it, and touches nothing but the coordinates.
pub proof fn lemma_stepped_in_grid(s: GameState, dx: int, dy: int)
    requires
        s.grid_ok(),
    ensures
        s.stepped(dx, dy).in_grid(),
        s.stepped(dx, dy) == (GameState { x: s.stepped(dx, dy).x, y: s.stepped(dx, dy).y, ..s }),
{
}

/// Law: flipping the edge mode twice gives the state back.
pub proof fn lemma_edge_toggle_twice(s: GameState)
    ensures
        s.with_edge_flipped().with_edge_flipped() == s,
{
}

/// Law: flipping the jitter mode twice gives the state back.
pub proof fn lemma_jitter_toggle_twice(s: GameState)
    ensures
        s.with_jitter_flipped().with_jitter_flipped() == s,
{
}

} // verus!
