//! The catalog of stamps that the cursor can place.

use crate::cells::Cell;
use vstd::prelude::*;

verus! {

/// A named stamp: a fixed list of offsets from the placement origin.
#[derive(Clone, Copy, Debug, PartialEq, Eq, Structural)]
pub enum Pattern {
    Dot,
    Block,
    Blinker,
    Glider,
    RPentomino,
}

impl Pattern {
    /// The position of the stamp in the catalog.
    pub open spec fn index(self) -> int {
        match self {
            Pattern::Dot => 0,
            Pattern::Block => 1,
            Pattern::Blinker => 2,
            Pattern::Glider => 3,
            Pattern::RPentomino => 4,
        }
    }

    /// The number of stamps in the catalog.
    pub open spec fn count() -> int {
        5
    }

    /// The offsets of the stamp, as (column, row) with rows growing upwards.
    pub open spec fn offsets(self) -> Seq<Cell> {
        match self {
            Pattern::Dot => seq![(0i64, 0i64)],
            Pattern::Block => seq![(0i64, 0i64), (1, 0), (0, 1), (1, 1)],
            Pattern::Blinker => seq![(-1i64, 0i64), (0, 0), (1, 0)],
            Pattern::Glider => seq![(0i64, 1i64), (1, 0), (-1i64, -1i64), (0, -1i64), (1, -1i64)],
            Pattern::RPentomino => seq![(0i64, 1i64), (1, 1), (-1i64, 0), (0, 0), (0, -1i64)],
        }
    }

    pub open spec fn title(self) -> Seq<char> {
        match self {
            Pattern::Dot => "dot"@,
            Pattern::Block => "block"@,
            Pattern::Blinker => "blinker"@,
            Pattern::Glider => "glider"@,
            Pattern::RPentomino => "r-pentomino"@,
        }
    }

    /// The offsets of the stamp.
    pub fn coords(&self) -> (r: Vec<Cell>)
        ensures
            r@ == self.offsets(),
    {
        let r = match self {
            Pattern::Dot => vec![(0i64, 0i64)],
            Pattern::Block => vec![(0i64, 0i64), (1, 0), (0, 1), (1, 1)],
            Pattern::Blinker => vec![(-1i64, 0i64), (0, 0), (1, 0)],
            Pattern::Glider => vec![(0i64, 1i64), (1, 0), (-1, -1), (0, -1), (1, -1)],
            Pattern::RPentomino => vec![(0i64, 1i64), (1, 1), (-1, 0), (0, 0), (0, -1)],
        };
        assert(r@ =~= self.offsets());
        r
    }

    /// The name shown for the stamp.
    pub fn name(&self) -> (r: &'static str)
        ensures
            r@ == self.title(),
    {
        match self {
            Pattern::Dot => "dot",
            Pattern::Block => "block",
            Pattern::Blinker => "blinker",
            Pattern::Glider => "glider",
            Pattern::RPentomino => "r-pentomino",
        }
    }

    /// Selects the next stamp of the catalog, wrapping after the last.
    pub fn next(&mut self)
        ensures
            final(self).index() == (old(self).index() + 1) % Pattern::count(),
    {
        *self = match *self {
            Pattern::Dot => Pattern::Block,
            Pattern::Block => Pattern::Blinker,
            Pattern::Blinker => Pattern::Glider,
            Pattern::Glider => Pattern::RPentomino,
            Pattern::RPentomino => Pattern::Dot,
        };
    }

    /// Selects the previous stamp of the catalog, wrapping before the first.
    pub fn prev(&mut self)
        ensures
            final(self).index() == (old(self).index() + Pattern::count() - 1) % Pattern::count(),
    {
        *self = match *self {
            Pattern::Dot => Pattern::RPentomino,
            Pattern::Block => Pattern::Dot,
            Pattern::Blinker => Pattern::Block,
            Pattern::Glider => Pattern::Blinker,
            Pattern::RPentomino => Pattern::Glider,
        };
    }
}

impl Default for Pattern {
    fn default() -> (r: Pattern)
        ensures
            r == Pattern::Dot,
    {
        Pattern::Dot
    }
}

} // verus!
