//! Camera state: pan, zoom, cursor and stamp selection, and the arithmetic that
//! turns it into the rectangle of the lattice to draw.
//!
//! Every length here is counted in half lattice steps (a "half"): the value 2
//! is one lattice step. Half steps arise because a zoomed-in character column
//! shows half a lattice column; counting in halves keeps all of it exact.

use crate::cells::{placed, Cell, Cells};
use crate::patterns::Pattern;
use vstd::prelude::*;
use vstd::view::View as _;

verus! {

/// How far the camera can pan from the origin, in halves, on either axis.
pub const PAN_LIMIT: i64 = 2305843009213693952;

/// The largest half-extent that a terminal of `u16` dimensions can give.
pub const BOUND_LIMIT: i64 = 262140;

/// `a / 2` rounded down.
pub open spec fn floor_half(a: int) -> int {
    a / 2
}

/// `a / 2` rounded up.
pub open spec fn ceil_half(a: int) -> int {
    (a + 1) / 2
}

/// `a / 2` rounded to the nearest integer, halves away from zero.
pub open spec fn round_half(a: int) -> int {
    if a >= 0 {
        (a + 1) / 2
    } else {
        -((1 - a) / 2)
    }
}

pub open spec fn clamp(v: int, lo: int, hi: int) -> int {
    if v < lo {
        lo
    } else if v > hi {
        hi
    } else {
        v
    }
}

fn floor_half_i64(a: i64) -> (r: i64)
    requires
        a > i64::MIN + 1,
    ensures
        r == floor_half(a as int),
{
    if a >= 0 {
        a / 2
    } else {
        let m = (1 - a) / 2;
        assert(-m == (a as int) / 2) by (nonlinear_arith)
            requires
                a < 0,
                m == (1 - a) / 2,
        ;
        -m
    }
}

fn round_half_i64(a: i64) -> (r: i64)
    requires
        a > i64::MIN + 1,
        a < i64::MAX,
    ensures
        r == round_half(a as int),
{
    if a >= 0 {
        (a + 1) / 2
    } else {
        -((1 - a) / 2)
    }
}

fn step_forward_i64(p: i64, b: i64) -> (r: i64)
    requires
        0 <= b <= BOUND_LIMIT,
        -b <= p <= b,
    ensures
        r == step_forward(p as int, b as int),
{
    if p + 2 >= b {
        -b
    } else {
        p + 2
    }
}

fn step_back_i64(p: i64, b: i64) -> (r: i64)
    requires
        0 <= b <= BOUND_LIMIT,
        -b <= p <= b,
    ensures
        r == step_back(p as int, b as int),
{
    if p - 2 < -b {
        if b > 0 {
            b - 2
        } else {
            0
        }
    } else {
        p - 2
    }
}

/// A direction of cursor motion.
#[derive(Clone, Copy, Debug, PartialEq, Eq, Structural)]
pub enum Direction {
    Left,
    Right,
    Up,
    Down,
}

/// The last position of the half-open range `[-b, b)` that steps of one
/// lattice unit reach from `-b`; `0` where the range is empty.
pub open spec fn range_top(b: int) -> int {
    if b > 0 {
        b - 2
    } else {
        0
    }
}

/// One step towards the positive end of `[-b, b)`: a step that would reach `b`
/// lands on `-b` instead.
pub open spec fn step_forward(p: int, b: int) -> int {
    if p + 2 >= b {
        -b
    } else {
        p + 2
    }
}

/// One step towards the negative end of `[-b, b)`: a step that would pass `-b`
/// lands on the range's last position instead.
pub open spec fn step_back(p: int, b: int) -> int {
    if p - 2 < -b {
        range_top(b)
    } else {
        p - 2
    }
}

/// Where one cursor step in `dir` leads from `(col, row)` within the
/// half-extents `bounds`. Each axis ranges over the half-open `[-bound, bound)`,
/// and a step past one end lands on the other, so the range keeps its size
/// across a wrap.
pub open spec fn cursor_step(c: (int, int), bounds: (int, int), dir: Direction) -> (int, int) {
    let (col, row) = c;
    match dir {
        Direction::Right => (step_forward(col, bounds.0), row),
        Direction::Left => (step_back(col, bounds.0), row),
        Direction::Up => (col, step_forward(row, bounds.1)),
        Direction::Down => (col, step_back(row, bounds.1)),
    }
}

/// The cursor position after the steps `dirs`, taken in order from `start`.
pub open spec fn cursor_walk(start: (int, int), bounds: (int, int), dirs: Seq<Direction>) -> (int, int)
    decreases dirs.len(),
{
    if dirs.len() == 0 {
        start
    } else {
        cursor_step(cursor_walk(start, bounds, dirs.drop_last()), bounds, dirs.last())
    }
}

/// Whether `c` lies within the half-extents `bounds`.
pub open spec fn within(c: (int, int), bounds: (int, int)) -> bool {
    -bounds.0 <= c.0 <= bounds.0 && -bounds.1 <= c.1 <= bounds.1
}

/// A step past either end of a range lands on the other end: right or up
/// from the last position before the bound to the negative bound, and left or
/// down from the negative bound to the last position before the bound.
pub proof fn lemma_cursor_wraps(bounds: (int, int), col: int, row: int)
    ensures
        col >= bounds.0 - 2 ==> cursor_step((col, row), bounds, Direction::Right) == (-bounds.0, row),
        col < 2 - bounds.0 ==> cursor_step((col, row), bounds, Direction::Left) == (range_top(bounds.0), row),
        row >= bounds.1 - 2 ==> cursor_step((col, row), bounds, Direction::Up) == (col, -bounds.1),
        row < 2 - bounds.1 ==> cursor_step((col, row), bounds, Direction::Down) == (col, range_top(bounds.1)),
        bounds.0 > 0 ==> cursor_step((-bounds.0, row), bounds, Direction::Left) == (bounds.0 - 2, row),
        bounds.1 > 0 ==> cursor_step((col, -bounds.1), bounds, Direction::Down) == (col, bounds.1 - 2),
{
}

/// A cursor inside the bounds stays inside them, whatever steps it takes.
pub proof fn lemma_cursor_stays_in_bounds(start: (int, int), bounds: (int, int), dirs: Seq<Direction>)
    requires
        bounds.0 >= 0,
        bounds.1 >= 0,
        within(start, bounds),
    ensures
        within(cursor_walk(start, bounds, dirs), bounds),
    decreases dirs.len(),
{
    if dirs.len() > 0 {
        lemma_cursor_stays_in_bounds(start, bounds, dirs.drop_last());
    }
}

/// The camera's pan offset, in halves.
#[derive(Clone, Copy, Debug, PartialEq, Eq, Structural)]
pub struct Translate {
    pub row: i64,
    pub col: i64,
}

impl Translate {
    pub open spec fn wf(self) -> bool {
        -PAN_LIMIT <= self.row <= PAN_LIMIT && -PAN_LIMIT <= self.col <= PAN_LIMIT
    }

    /// Pans one lattice step left, stopping at the pan limit.
    pub fn left(&mut self)
        requires
            old(self).wf(),
        ensures
            final(self).wf(),
            final(self).row == old(self).row,
            final(self).col == clamp(old(self).col - 2, -PAN_LIMIT as int, PAN_LIMIT as int),
    {
        if self.col - 2 >= -PAN_LIMIT {
            self.col = self.col - 2;
        } else {
            self.col = -PAN_LIMIT;
        }
    }

    /// Pans one lattice step right, stopping at the pan limit.
    pub fn right(&mut self)
        requires
            old(self).wf(),
        ensures
            final(self).wf(),
            final(self).row == old(self).row,
            final(self).col == clamp(old(self).col + 2, -PAN_LIMIT as int, PAN_LIMIT as int),
    {
        if self.col + 2 <= PAN_LIMIT {
            self.col = self.col + 2;
        } else {
            self.col = PAN_LIMIT;
        }
    }

    /// Pans one lattice step up, stopping at the pan limit.
    pub fn up(&mut self)
        requires
            old(self).wf(),
        ensures
            final(self).wf(),
            final(self).col == old(self).col,
            final(self).row == clamp(old(self).row + 2, -PAN_LIMIT as int, PAN_LIMIT as int),
    {
        if self.row + 2 <= PAN_LIMIT {
            self.row = self.row + 2;
        } else {
            self.row = PAN_LIMIT;
        }
    }

    /// Pans one lattice step down, stopping at the pan limit.
    pub fn down(&mut self)
        requires
            old(self).wf(),
        ensures
            final(self).wf(),
            final(self).col == old(self).col,
            final(self).row == clamp(old(self).row - 2, -PAN_LIMIT as int, PAN_LIMIT as int),
    {
        if self.row - 2 >= -PAN_LIMIT {
            self.row = self.row - 2;
        } else {
            self.row = -PAN_LIMIT;
        }
    }
}

impl Default for Translate {
    fn default() -> (r: Translate)
        ensures
            r.row == 0 && r.col == 0,
    {
        Translate { row: 0, col: 0 }
    }
}

/// The editing cursor: an offset from the pan position, in halves, and the
/// stamp it places.
#[derive(Clone, Copy, Debug, PartialEq, Eq, Structural)]
pub struct Cursor {
    pub hidden: bool,
    pub offset_row: i64,
    pub offset_col: i64,
    pub pattern: Pattern,
}

impl Cursor {
    /// Whether the cursor sits at the given offset.
    pub fn at(&self, offset_row: i64, offset_col: i64) -> (r: bool)
        ensures
            r == (self.offset_row == offset_row && self.offset_col == offset_col),
    {
        self.offset_row == offset_row && self.offset_col == offset_col
    }

    /// Shows a hidden cursor, hides a shown one.
    pub fn toggle(&mut self)
        ensures
            *final(self) == (Cursor { hidden: !old(self).hidden, ..*old(self) }),
    {
        self.hidden = !self.hidden;
    }
}

impl Default for Cursor {
    fn default() -> (r: Cursor)
        ensures
            r == (Cursor { hidden: false, offset_row: 0, offset_col: 0, pattern: Pattern::Dot }),
    {
        Cursor { hidden: false, offset_row: 0, offset_col: 0, pattern: Pattern::Dot }
    }
}

/// Halves of the lattice shown per character, (columns, rows), at a zoom level.
pub open spec fn halves_per_char(zoom: bool) -> (int, int) {
    if zoom {
        (1, 2)
    } else {
        (2, 4)
    }
}

/// The camera. `zoom` is the level: `true` zoomed in, `false` zoomed out.
/// `bounds` is the visible half-extent, (columns, rows), in halves.
#[derive(Clone, Copy, Debug)]
pub struct View {
    pub controls: bool,
    pub bounds: (i64, i64),
    pub cursor: Cursor,
    pub translate: Translate,
    pub zoom: bool,
}

impl View {
    pub open spec fn wf(self) -> bool {
        &&& self.translate.wf()
        &&& 0 <= self.bounds.0 <= BOUND_LIMIT
        &&& 0 <= self.bounds.1 <= BOUND_LIMIT
        &&& within(self.cursor_pos(), self.bounds_int())
    }

    pub open spec fn cursor_pos(self) -> (int, int) {
        (self.cursor.offset_col as int, self.cursor.offset_row as int)
    }

    pub open spec fn bounds_int(self) -> (int, int) {
        (self.bounds.0 as int, self.bounds.1 as int)
    }

    /// The lattice point under the cursor: the cursor plus the pan offset,
    /// rounded to the nearest lattice point.
    pub open spec fn origin(self) -> (int, int) {
        (
            round_half(self.cursor.offset_col + self.translate.col),
            round_half(self.cursor.offset_row + self.translate.row),
        )
    }

    /// Moves the cursor one lattice step in `dir`, wrapping at the bounds.
    /// Does nothing when zoomed out.
    pub fn move_cursor(&mut self, dir: Direction)
        requires
            old(self).wf(),
        ensures
            final(self).wf(),
            !old(self).zoom ==> *final(self) == *old(self),
            old(self).zoom ==> final(self).cursor_pos() == cursor_step(
                old(self).cursor_pos(),
                old(self).bounds_int(),
                dir,
            ),
            final(self).bounds == old(self).bounds,
            final(self).translate == old(self).translate,
            final(self).zoom == old(self).zoom,
            final(self).controls == old(self).controls,
            final(self).cursor.hidden == old(self).cursor.hidden,
            final(self).cursor.pattern == old(self).cursor.pattern,
    {
        if !self.zoom {
            return;
        }
        let (col_range, row_range) = self.bounds;
        match dir {
            Direction::Left => {
                self.cursor.offset_col = step_back_i64(self.cursor.offset_col, col_range);
            },
            Direction::Right => {
                self.cursor.offset_col = step_forward_i64(self.cursor.offset_col, col_range);
            },
            Direction::Up => {
                self.cursor.offset_row = step_forward_i64(self.cursor.offset_row, row_range);
            },
            Direction::Down => {
                self.cursor.offset_row = step_back_i64(self.cursor.offset_row, row_range);
            },
        }
    }

    /// Moves to the zoomed-in level; already there, nothing changes.
    pub fn zoom_in(&mut self)
        ensures
            *final(self) == (View { zoom: true, ..*old(self) }),
    {
        self.zoom = true;
    }

    /// Moves to the zoomed-out level; already there, nothing changes.
    pub fn zoom_out(&mut self)
        ensures
            *final(self) == (View { zoom: false, ..*old(self) }),
    {
        self.zoom = false;
    }

    /// Recomputes the bounds for a drawing area of `width` x `height`
    /// characters at the current zoom, and clamps the cursor into them.
    pub fn fit(&mut self, width: u16, height: u16)
        requires
            old(self).wf(),
        ensures
            final(self).wf(),
            final(self).bounds_int() == (
                width * halves_per_char(old(self).zoom).0,
                height * halves_per_char(old(self).zoom).1,
            ),
            final(self).cursor.offset_col == clamp(
                old(self).cursor.offset_col as int,
                -final(self).bounds.0,
                final(self).bounds.0 as int,
            ),
            final(self).cursor.offset_row == clamp(
                old(self).cursor.offset_row as int,
                -final(self).bounds.1,
                final(self).bounds.1 as int,
            ),
            final(self).translate == old(self).translate,
            final(self).zoom == old(self).zoom,
            final(self).controls == old(self).controls,
            final(self).cursor.hidden == old(self).cursor.hidden,
            final(self).cursor.pattern == old(self).cursor.pattern,
    {
        let (w, h) = (width as i64, height as i64);
        self.bounds = if self.zoom {
            (w, 2 * h)
        } else {
            (2 * w, 4 * h)
        };
        let (bc, br) = self.bounds;
        if self.cursor.offset_col < -bc {
            self.cursor.offset_col = -bc;
        } else if self.cursor.offset_col > bc {
            self.cursor.offset_col = bc;
        }
        if self.cursor.offset_row < -br {
            self.cursor.offset_row = -br;
        } else if self.cursor.offset_row > br {
            self.cursor.offset_row = br;
        }
    }

    /// The smallest lattice rectangle `(min, max)` that covers the visible
    /// area: the pan offset plus and minus the bounds, widened to whole cells.
    pub fn visible_rect(&self) -> (r: (Cell, Cell))
        requires
            self.wf(),
        ensures
            r.0.0 == floor_half(self.translate.col - self.bounds.0),
            r.0.1 == floor_half(self.translate.row - self.bounds.1),
            r.1.0 == ceil_half(self.translate.col + self.bounds.0),
            r.1.1 == ceil_half(self.translate.row + self.bounds.1),
    {
        let t = self.translate;
        let (bc, br) = self.bounds;
        (
            (floor_half_i64(t.col - bc), floor_half_i64(t.row - br)),
            (floor_half_i64(t.col + bc + 1), floor_half_i64(t.row + br + 1)),
        )
    }

    /// The lattice point under the cursor.
    pub fn target_origin(&self) -> (r: Cell)
        requires
            self.wf(),
        ensures
            r.0 == self.origin().0,
            r.1 == self.origin().1,
    {
        (
            round_half_i64(self.cursor.offset_col + self.translate.col),
            round_half_i64(self.cursor.offset_row + self.translate.row),
        )
    }

    /// Stamps the selected pattern at the lattice point under the cursor.
    pub fn place_pattern(&self, cells: &mut Cells)
        requires
            self.wf(),
        ensures
            final(cells)@ == old(cells)@.union(
                placed(self.target_origin_spec(), self.cursor.pattern.offsets()),
            ),
    {
        let origin = self.target_origin();
        let offsets = self.cursor.pattern.coords();
        cells.place(origin, &offsets);
    }

    pub open spec fn target_origin_spec(self) -> Cell {
        (self.origin().0 as i64, self.origin().1 as i64)
    }

    /// The points, in halves, where the selected stamp would land: the cursor
    /// plus the pan offset plus each stamp offset.
    pub fn preview(&self) -> (r: Vec<(i128, i128)>)
        ensures
            r@.len() == self.cursor.pattern.offsets().len(),
            forall|i: int|
                0 <= i < r@.len() ==> #[trigger] r@[i] == (
                    (self.cursor.offset_col + self.translate.col + 2 * self.cursor.pattern.offsets()[i].0) as i128,
                    (self.cursor.offset_row + self.translate.row + 2 * self.cursor.pattern.offsets()[i].1) as i128,
                ),
    {
        let offsets = self.cursor.pattern.coords();
        let base_col = self.cursor.offset_col as i128 + self.translate.col as i128;
        let base_row = self.cursor.offset_row as i128 + self.translate.row as i128;
        let mut r: Vec<(i128, i128)> = Vec::new();
        let mut i: usize = 0;
        while i < offsets.len()
            invariant
                i <= offsets@.len(),
                offsets@ == self.cursor.pattern.offsets(),
                base_col == self.cursor.offset_col + self.translate.col,
                base_row == self.cursor.offset_row + self.translate.row,
                r@.len() == i,
                forall|k: int|
                    0 <= k < i ==> #[trigger] r@[k] == (
                        (base_col + 2 * offsets@[k].0) as i128,
                        (base_row + 2 * offsets@[k].1) as i128,
                    ),
            decreases offsets@.len() - i,
        {
            let o = offsets[i];
            r.push((base_col + 2 * (o.0 as i128), base_row + 2 * (o.1 as i128)));
            i = i + 1;
        }
        r
    }
}

impl Default for View {
    fn default() -> (r: View)
        ensures
            r.wf(),
            r.controls,
            r.zoom,
            r.bounds == (0i64, 0i64),
            r.cursor == (Cursor { hidden: false, offset_row: 0, offset_col: 0, pattern: Pattern::Dot }),
            r.translate == (Translate { row: 0, col: 0 }),
    {
        View {
            controls: true,
            bounds: (0, 0),
            cursor: Cursor::default(),
            translate: Translate::default(),
            zoom: true,
        }
    }
}

} // verus!
