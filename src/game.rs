//! The session: the lattice, the camera, the simulation speed, and the
//! decisions taken on each user command and each elapsed stretch of time.

use crate::cells::{Cell, Cells};
use crate::life::next_generation;
use crate::patterns::Pattern;
use crate::view::{Direction, View};
use vstd::prelude::*;
use vstd::view::View as _;

verus! {

/// The simulation speed.
#[derive(Clone, Copy, Debug, PartialEq, Eq, Structural)]
pub enum TickRate {
    Slow,
    Normal,
    Fast,
}

impl TickRate {
    /// The time between two generations, in nanoseconds.
    pub open spec fn nanos(self) -> int {
        match self {
            TickRate::Slow => 1_000_000_000,
            TickRate::Normal => 200_000_000,
            TickRate::Fast => 100_000_000,
        }
    }

    pub fn interval_nanos(&self) -> (r: u64)
        ensures
            r == self.nanos(),
    {
        match self {
            TickRate::Slow => 1_000_000_000,
            TickRate::Normal => 200_000_000,
            TickRate::Fast => 100_000_000,
        }
    }

    /// One step faster, wrapping from the fastest to the slowest.
    pub fn increase(&mut self)
        ensures
            *final(self) == match *old(self) {
                TickRate::Slow => TickRate::Normal,
                TickRate::Normal => TickRate::Fast,
                TickRate::Fast => TickRate::Slow,
            },
    {
        *self = match *self {
            TickRate::Slow => TickRate::Normal,
            TickRate::Normal => TickRate::Fast,
            TickRate::Fast => TickRate::Slow,
        };
    }

    /// One step slower, wrapping from the slowest to the fastest.
    pub fn decrease(&mut self)
        ensures
            *final(self) == match *old(self) {
                TickRate::Slow => TickRate::Fast,
                TickRate::Normal => TickRate::Slow,
                TickRate::Fast => TickRate::Normal,
            },
    {
        *self = match *self {
            TickRate::Slow => TickRate::Fast,
            TickRate::Normal => TickRate::Slow,
            TickRate::Fast => TickRate::Normal,
        };
    }
}

/// What the user asked for.
#[derive(Clone, Copy, Debug, PartialEq, Eq, Structural)]
pub enum Command {
    Quit,
    Pan(Direction),
    MoveCursor(Direction),
    ToggleControls,
    TogglePause,
    ToggleCursor,
    ToggleZoom,
    PrevPattern,
    NextPattern,
    Clear,
    Place,
    Faster,
    Slower,
}

/// `s` after `k` generations.
pub open spec fn generations(s: Set<Cell>, k: nat) -> Set<Cell>
    decreases k,
{
    if k == 0 {
        s
    } else {
        next_generation(generations(s, (k - 1) as nat))
    }
}

/// The whole interactive state.
pub struct Game {
    pub cells: Cells,
    pub view: View,
    pub tick_rate: TickRate,
    pub paused: bool,
    /// Time that has elapsed while running and is not yet spent on generations.
    pub pending_nanos: u64,
}

impl Game {
    pub open spec fn wf(&self) -> bool {
        self.view.wf()
    }

    /// An empty, paused lattice at normal speed, with the default camera.
    pub fn new() -> (r: Game)
        ensures
            r.wf(),
            r.cells@ == Set::<Cell>::empty(),
            r.view.controls && r.view.zoom,
            r.view.bounds == (0i64, 0i64),
            r.view.translate.row == 0 && r.view.translate.col == 0,
            r.view.cursor.offset_row == 0 && r.view.cursor.offset_col == 0,
            !r.view.cursor.hidden && r.view.cursor.pattern == Pattern::Dot,
            r.tick_rate == TickRate::Normal,
            r.paused,
            r.pending_nanos == 0,
    {
        Game {
            cells: Cells::new(),
            view: View::default(),
            tick_rate: TickRate::Normal,
            paused: true,
            pending_nanos: 0,
        }
    }

    /// Replaces the lattice by its next generation.
    pub fn update(&mut self)
        ensures
            final(self).cells@ == next_generation(old(self).cells@),
            final(self).view == old(self).view,
            final(self).tick_rate == old(self).tick_rate,
            final(self).paused == old(self).paused,
            final(self).pending_nanos == old(self).pending_nanos,
    {
        let next = self.cells.step();
        self.cells = next;
    }

    /// Stamps the selected pattern under the cursor.
    pub fn place_pattern(&mut self)
        requires
            old(self).wf(),
        ensures
            final(self).cells@ == old(self).cells@.union(
                crate::cells::placed(
                    old(self).view.target_origin_spec(),
                    old(self).view.cursor.pattern.offsets(),
                ),
            ),
            final(self).view == old(self).view,
            final(self).tick_rate == old(self).tick_rate,
            final(self).paused == old(self).paused,
            final(self).pending_nanos == old(self).pending_nanos,
    {
        self.view.place_pattern(&mut self.cells);
    }

    /// Lets `elapsed_nanos` of time pass. While running, the elapsed time is
    /// added to the pending time and as many whole generations as it holds are
    /// computed; the remainder stays pending. While paused nothing changes.
    /// Returns the number of generations computed.
    pub fn advance(&mut self, elapsed_nanos: u64) -> (ticks: u64)
        ensures
            old(self).paused ==> ticks == 0 && final(self).pending_nanos == old(self).pending_nanos,
            !old(self).paused ==> ticks == (old(self).pending_nanos + elapsed_nanos)
                / old(self).tick_rate.nanos(),
            !old(self).paused ==> final(self).pending_nanos == (old(self).pending_nanos
                + elapsed_nanos) % old(self).tick_rate.nanos(),
            final(self).cells@ == generations(old(self).cells@, ticks as nat),
            final(self).view == old(self).view,
            final(self).tick_rate == old(self).tick_rate,
            final(self).paused == old(self).paused,
    {
        if self.paused {
            return 0;
        }
        let interval = self.tick_rate.interval_nanos() as u128;
        let total = self.pending_nanos as u128 + elapsed_nanos as u128;
        let ticks = (total / interval) as u64;
        self.pending_nanos = (total % interval) as u64;
        let ghost start = self.cells@;
        let mut done: u64 = 0;
        while done < ticks
            invariant
                done <= ticks,
                self.cells@ == generations(start, done as nat),
                self.view == old(self).view,
                self.tick_rate == old(self).tick_rate,
                self.paused == old(self).paused,
                self.pending_nanos == total % interval,
            decreases ticks - done,
        {
            self.update();
            done = done + 1;
        }
        ticks
    }

    /// Carries out one user command. Returns `false` when the command asks to
    /// quit, and `true` otherwise.
    pub fn apply(&mut self, cmd: Command) -> (running: bool)
        requires
            old(self).wf(),
        ensures
            final(self).wf(),
            running == (cmd != Command::Quit),
            final(self).pending_nanos == old(self).pending_nanos,
            cmd == Command::Clear ==> final(self).cells@ == Set::<Cell>::empty(),
            cmd == Command::Place && !old(self).view.cursor.hidden && old(self).view.zoom
                ==> final(self).cells@ == old(self).cells@.union(
                crate::cells::placed(
                    old(self).view.target_origin_spec(),
                    old(self).view.cursor.pattern.offsets(),
                ),
            ),
            cmd != Command::Clear && (cmd != Command::Place || old(self).view.cursor.hidden
                || !old(self).view.zoom) ==> final(self).cells@ == old(self).cells@,
            cmd == Command::TogglePause ==> final(self).paused == !old(self).paused,
            cmd != Command::TogglePause ==> final(self).paused == old(self).paused,
            cmd == Command::Faster ==> final(self).tick_rate == match old(self).tick_rate {
                TickRate::Slow => TickRate::Normal,
                TickRate::Normal => TickRate::Fast,
                TickRate::Fast => TickRate::Slow,
            },
            cmd == Command::Slower ==> final(self).tick_rate == match old(self).tick_rate {
                TickRate::Slow => TickRate::Fast,
                TickRate::Normal => TickRate::Slow,
                TickRate::Fast => TickRate::Normal,
            },
            cmd != Command::Faster && cmd != Command::Slower ==> final(self).tick_rate == old(
                self,
            ).tick_rate,
            cmd == Command::ToggleControls ==> final(self).view.controls == !old(self).view.controls,
            cmd != Command::ToggleControls ==> final(self).view.controls == old(self).view.controls,
            cmd == Command::ToggleZoom ==> final(self).view.zoom == !old(self).view.zoom,
            cmd != Command::ToggleZoom ==> final(self).view.zoom == old(self).view.zoom,
            cmd == Command::ToggleCursor ==> final(self).view.cursor.hidden
                == !old(self).view.cursor.hidden,
            cmd != Command::ToggleCursor ==> final(self).view.cursor.hidden
                == old(self).view.cursor.hidden,
            cmd == Command::NextPattern ==> final(self).view.cursor.pattern.index() == (old(
                self,
            ).view.cursor.pattern.index() + 1) % Pattern::count(),
            cmd == Command::PrevPattern ==> final(self).view.cursor.pattern.index() == (old(
                self,
            ).view.cursor.pattern.index() + Pattern::count() - 1) % Pattern::count(),
            cmd != Command::NextPattern && cmd != Command::PrevPattern
                ==> final(self).view.cursor.pattern == old(self).view.cursor.pattern,
            final(self).view.bounds == old(self).view.bounds,
            forall|d: Direction| cmd == Command::MoveCursor(d) && old(self).view.zoom ==> (
                final(self).view.cursor_pos() == crate::view::cursor_step(
                    old(self).view.cursor_pos(),
                    old(self).view.bounds_int(),
                    d,
                )),
            (forall|d: Direction| cmd != Command::MoveCursor(d)) || !old(self).view.zoom
                ==> final(self).view.cursor_pos() == old(self).view.cursor_pos(),
            cmd == Command::Pan(Direction::Left) ==> final(self).view.translate.col
                == crate::view::clamp(
                old(self).view.translate.col - 2,
                -crate::view::PAN_LIMIT as int,
                crate::view::PAN_LIMIT as int,
            ),
            cmd == Command::Pan(Direction::Right) ==> final(self).view.translate.col
                == crate::view::clamp(
                old(self).view.translate.col + 2,
                -crate::view::PAN_LIMIT as int,
                crate::view::PAN_LIMIT as int,
            ),
            cmd == Command::Pan(Direction::Up) ==> final(self).view.translate.row
                == crate::view::clamp(
                old(self).view.translate.row + 2,
                -crate::view::PAN_LIMIT as int,
                crate::view::PAN_LIMIT as int,
            ),
            cmd == Command::Pan(Direction::Down) ==> final(self).view.translate.row
                == crate::view::clamp(
                old(self).view.translate.row - 2,
                -crate::view::PAN_LIMIT as int,
                crate::view::PAN_LIMIT as int,
            ),
            cmd == Command::Pan(Direction::Left) || cmd == Command::Pan(Direction::Right)
                ==> final(self).view.translate.row == old(self).view.translate.row,
            cmd == Command::Pan(Direction::Up) || cmd == Command::Pan(Direction::Down)
                ==> final(self).view.translate.col == old(self).view.translate.col,
            (forall|d: Direction| cmd != Command::Pan(d)) ==> final(self).view.translate == old(
                self,
            ).view.translate,
    {
        match cmd {
            Command::Quit => {
                return false;
            },
            Command::Pan(Direction::Left) => self.view.translate.left(),
            Command::Pan(Direction::Right) => self.view.translate.right(),
            Command::Pan(Direction::Up) => self.view.translate.up(),
            Command::Pan(Direction::Down) => self.view.translate.down(),
            Command::MoveCursor(d) => self.view.move_cursor(d),
            Command::ToggleControls => self.view.controls = !self.view.controls,
            Command::TogglePause => self.paused = !self.paused,
            Command::ToggleCursor => self.view.cursor.toggle(),
            Command::ToggleZoom => {
                if self.view.zoom {
                    self.view.zoom_out();
                } else {
                    self.view.zoom_in();
                }
            },
            Command::PrevPattern => self.view.cursor.pattern.prev(),
            Command::NextPattern => self.view.cursor.pattern.next(),
            Command::Clear => self.cells.clear(),
            Command::Place => {
                if !self.view.cursor.hidden && self.view.zoom {
                    self.place_pattern();
                }
            },
            Command::Faster => self.tick_rate.increase(),
            Command::Slower => self.tick_rate.decrease(),
        }
        true
    }
}

} // verus!
