//! The live-cell store: a sparse set of lattice coordinates.

use ahash::HashSetExt;
use std::collections::HashSet;
use vstd::prelude::*;

verus! {

/// One lattice point: (column, row).
pub type Cell = (i64, i64);

/// The hash set that holds the live cells, hashed with ahash.
pub type CellHashSet = HashSet<Cell, ahash::RandomState>;

/// ahash's hash builder: carried as the hasher of the cell set, never looked into.
#[verifier::external_type_specification]
#[verifier::external_body]
pub struct ExAhashRandomState(ahash::RandomState);

/// Relies on ahash::HashSetExt::new: a fresh set with a default ahash state is empty.
#[verifier::external_body]
pub(crate) fn hash_set_new() -> (r: CellHashSet)
    ensures
        r@ == Set::<Cell>::empty(),
{
    <CellHashSet as HashSetExt>::new()
}

/// Relies on std's HashSet::contains, hashing with ahash: membership test of a plain integer pair.
#[verifier::external_body]
pub(crate) fn hash_set_contains(h: &CellHashSet, c: Cell) -> (r: bool)
    ensures
        r == h@.contains(c),
{
    h.contains(&c)
}

/// Relies on std's HashSet::insert, hashing with ahash: the pair is a member afterwards, nothing else changes.
#[verifier::external_body]
pub(crate) fn hash_set_insert(h: &mut CellHashSet, c: Cell) -> (r: bool)
    ensures
        final(h)@ == old(h)@.insert(c),
        r == !old(h)@.contains(c),
{
    h.insert(c)
}

/// Relies on std's HashSet::remove, hashing with ahash: the pair is no member afterwards, nothing else changes.
#[verifier::external_body]
pub(crate) fn hash_set_remove(h: &mut CellHashSet, c: Cell) -> (r: bool)
    ensures
        final(h)@ == old(h)@.remove(c),
        r == old(h)@.contains(c),
{
    h.remove(&c)
}

/// Relies on std's HashSet::len, hashing with ahash: the number of distinct members.
#[verifier::external_body]
pub(crate) fn hash_set_len(h: &CellHashSet) -> (r: usize)
    ensures
        r == h@.len(),
{
    h.len()
}

/// Whether the point (x, y) of the unbounded lattice is a live cell of `s`.
/// Points outside the 64-bit coordinate range are never alive.
pub open spec fn alive(s: Set<Cell>, x: int, y: int) -> bool {
    &&& i64::MIN <= x <= i64::MAX
    &&& i64::MIN <= y <= i64::MAX
    &&& s.contains((x as i64, y as i64))
}

pub open spec fn one_if(b: bool) -> nat {
    if b {
        1
    } else {
        0
    }
}

/// The number of live cells among the eight Moore neighbours of (x, y).
pub open spec fn neighbor_count(s: Set<Cell>, x: int, y: int) -> nat {
    one_if(alive(s, x - 1, y - 1)) + one_if(alive(s, x, y - 1)) + one_if(alive(s, x + 1, y - 1))
        + one_if(alive(s, x - 1, y)) + one_if(alive(s, x + 1, y)) + one_if(alive(s, x - 1, y + 1))
        + one_if(alive(s, x, y + 1)) + one_if(alive(s, x + 1, y + 1))
}

/// Whether `c` lies in the inclusive rectangle spanned by `min` and `max`.
pub open spec fn in_rect(c: Cell, min: Cell, max: Cell) -> bool {
    min.0 <= c.0 <= max.0 && min.1 <= c.1 <= max.1
}

/// Row-major order: by row first, then by column.
pub open spec fn row_major_before(a: Cell, b: Cell) -> bool {
    a.1 < b.1 || (a.1 == b.1 && a.0 < b.0)
}

/// The cells that a stamp with offsets `offs` covers when placed at `origin`.
/// An offset that lands beyond the coordinate range covers nothing.
pub open spec fn placed(origin: Cell, offs: Seq<Cell>) -> Set<Cell> {
    Set::new(
        |c: Cell|
            exists|i: int|
                0 <= i < offs.len() && c.0 == origin.0 + offs[i].0 && c.1 == origin.1 + offs[i].1,
    )
}

/// The set of live lattice coordinates. Absence means dead.
pub struct Cells {
    pub(crate) live: CellHashSet,
}

impl View for Cells {
    type V = Set<Cell>;

    closed spec fn view(&self) -> Set<Cell> {
        self.live@
    }
}

impl Cells {
    /// An empty lattice.
    pub fn new() -> (r: Cells)
        ensures
            r@ == Set::<Cell>::empty(),
    {
        Cells { live: hash_set_new() }
    }

    /// Takes over a hash set as the set of live cells.
    pub(crate) fn from_hash_set(live: CellHashSet) -> (r: Cells)
        ensures
            r@ == live@,
    {
        Cells { live }
    }

    pub fn contains(&self, c: Cell) -> (r: bool)
        ensures
            r == self@.contains(c),
    {
        hash_set_contains(&self.live, c)
    }

    /// Makes `c` live; returns whether it was dead before.
    pub fn insert(&mut self, c: Cell) -> (r: bool)
        ensures
            final(self)@ == old(self)@.insert(c),
            r == !old(self)@.contains(c),
    {
        hash_set_insert(&mut self.live, c)
    }

    /// Makes `c` dead; returns whether it was live before.
    pub fn remove(&mut self, c: Cell) -> (r: bool)
        ensures
            final(self)@ == old(self)@.remove(c),
            r == old(self)@.contains(c),
    {
        hash_set_remove(&mut self.live, c)
    }

    /// Makes live every cell that the stamp `offsets` covers at `origin`, and
    /// changes no other cell.
    pub fn place(&mut self, origin: Cell, offsets: &Vec<Cell>)
        ensures
            final(self)@ == old(self)@.union(placed(origin, offsets@)),
    {
        let ghost start = self@;
        let mut i: usize = 0;
        while i < offsets.len()
            invariant
                i <= offsets@.len(),
                self@ == start.union(placed(origin, offsets@.take(i as int))),
            decreases offsets@.len() - i,
        {
            let o = offsets[i];
            let x = origin.0 as i128 + o.0 as i128;
            let y = origin.1 as i128 + o.1 as i128;
            let ghost prefix = offsets@.take(i as int);
            let ghost longer = offsets@.take(i as int + 1);
            if i64::MIN as i128 <= x && x <= i64::MAX as i128 && i64::MIN as i128 <= y && y
                <= i64::MAX as i128 {
                self.insert((x as i64, y as i64));
                assert(placed(origin, longer) =~= placed(origin, prefix).insert((x as i64, y as i64))) by {
                    assert forall|c: Cell| placed(origin, longer).contains(c) implies
                        placed(origin, prefix).insert((x as i64, y as i64)).contains(c) by {
                        let k = choose|k: int| 0 <= k < longer.len() && c.0 == origin.0 + longer[k].0 && c.1 == origin.1 + longer[k].1;
                        if k < i {
                            assert(prefix[k] == longer[k]);
                        }
                    }
                    assert forall|c: Cell| placed(origin, prefix).contains(c) implies
                        placed(origin, longer).contains(c) by {
                        let k = choose|k: int| 0 <= k < prefix.len() && c.0 == origin.0 + prefix[k].0 && c.1 == origin.1 + prefix[k].1;
                        assert(prefix[k] == longer[k]);
                    }
                    assert(longer[i as int] == o);
                }
            } else {
                assert(placed(origin, longer) =~= placed(origin, prefix)) by {
                    assert forall|c: Cell| placed(origin, longer).contains(c) implies
                        placed(origin, prefix).contains(c) by {
                        let k = choose|k: int| 0 <= k < longer.len() && c.0 == origin.0 + longer[k].0 && c.1 == origin.1 + longer[k].1;
                        assert(longer[i as int] == o);
                        assert(k != i);
                        assert(prefix[k] == longer[k]);
                    }
                    assert forall|c: Cell| placed(origin, prefix).contains(c) implies
                        placed(origin, longer).contains(c) by {
                        let k = choose|k: int| 0 <= k < prefix.len() && c.0 == origin.0 + prefix[k].0 && c.1 == origin.1 + prefix[k].1;
                        assert(prefix[k] == longer[k]);
                    }
                }
            }
            i = i + 1;
        }
        assert(offsets@.take(offsets@.len() as int) =~= offsets@);
    }

    /// Kills every cell.
    pub fn clear(&mut self)
        ensures
            final(self)@ == Set::<Cell>::empty(),
    {
        self.live.clear();
    }

    /// The number of live cells.
    pub fn len(&self) -> (r: usize)
        ensures
            r == self@.len(),
    {
        hash_set_len(&self.live)
    }

    pub fn is_empty(&self) -> (r: bool)
        ensures
            r == (self@ == Set::<Cell>::empty()),
    {
        self.live.is_empty()
    }

    /// Whether the point (x, y), given as wide integers, is a live cell.
    fn probe(&self, x: i128, y: i128) -> (r: bool)
        ensures
            r == alive(self@, x as int, y as int),
    {
        if x < i64::MIN as i128 || x > i64::MAX as i128 || y < i64::MIN as i128 || y
            > i64::MAX as i128 {
            false
        } else {
            self.contains((x as i64, y as i64))
        }
    }

    /// Counts the live cells among the eight neighbours of (x, y). The lattice
    /// does not wrap: a neighbour beyond the coordinate range is dead.
    pub fn count_neighbors(&self, x: i64, y: i64) -> (r: usize)
        ensures
            r == neighbor_count(self@, x as int, y as int),
            r <= 8,
    {
        let (x, y) = (x as i128, y as i128);
        let mut n: usize = 0;
        if self.probe(x - 1, y - 1) {
            n += 1;
        }
        if self.probe(x, y - 1) {
            n += 1;
        }
        if self.probe(x + 1, y - 1) {
            n += 1;
        }
        if self.probe(x - 1, y) {
            n += 1;
        }
        if self.probe(x + 1, y) {
            n += 1;
        }
        if self.probe(x - 1, y + 1) {
            n += 1;
        }
        if self.probe(x, y + 1) {
            n += 1;
        }
        if self.probe(x + 1, y + 1) {
            n += 1;
        }
        n
    }

    /// The live cells of the inclusive rectangle `[min.0, max.0] x [min.1, max.1]`,
    /// in row-major order. Probes every coordinate of the rectangle, so callers
    /// keep it to what is visible.
    pub fn subset(&self, min: Cell, max: Cell) -> (r: Vec<Cell>)
        ensures
            forall|i: int| 0 <= i < r@.len() ==> self@.contains(#[trigger] r@[i]) && in_rect(r@[i], min, max),
            forall|c: Cell| #[trigger] self@.contains(c) && in_rect(c, min, max) ==> r@.contains(c),
            forall|i: int, j: int| 0 <= i < j < r@.len() ==> row_major_before(r@[i], r@[j]),
    {
        let mut r: Vec<Cell> = Vec::new();
        let mut y: i128 = min.1 as i128;
        while y <= max.1 as i128
            invariant
                min.1 <= y <= max.1 as int + 1 || (y == min.1 && min.1 > max.1),
                forall|i: int| 0 <= i < r@.len() ==> self@.contains(#[trigger] r@[i]) && in_rect(r@[i], min, max) && r@[i].1 < y,
                forall|c: Cell| #[trigger] self@.contains(c) && in_rect(c, min, max) && c.1 < y ==> r@.contains(c),
                forall|i: int, j: int| 0 <= i < j < r@.len() ==> row_major_before(r@[i], r@[j]),
            decreases max.1 as int + 1 - y,
        {
            let row = y as i64;
            let mut x: i128 = min.0 as i128;
            while x <= max.0 as i128
                invariant
                    row == y,
                    min.1 <= row <= max.1,
                    min.0 <= x <= max.0 as int + 1 || (x == min.0 && min.0 > max.0),
                    forall|i: int| 0 <= i < r@.len() ==> self@.contains(#[trigger] r@[i]) && in_rect(r@[i], min, max)
                        && (r@[i].1 < y || (r@[i].1 == y && r@[i].0 < x)),
                    forall|c: Cell| #[trigger] self@.contains(c) && in_rect(c, min, max)
                        && (c.1 < y || (c.1 == y && c.0 < x)) ==> r@.contains(c),
                    forall|i: int, j: int| 0 <= i < j < r@.len() ==> row_major_before(r@[i], r@[j]),
                decreases max.0 as int + 1 - x,
            {
                let c: Cell = (x as i64, row);
                if self.contains(c) {
                    proof {
                        assert forall|d: Cell| #[trigger] self@.contains(d) && in_rect(d, min, max)
                            && (d.1 < y || (d.1 == y && d.0 < x + 1)) implies r@.push(c).contains(d) by {
                            if d == c {
                                assert(r@.push(c)[r@.len() as int] == c);
                            } else {
                                assert(r@.contains(d));
                                let k = choose|k: int| 0 <= k < r@.len() && r@[k] == d;
                                assert(r@.push(c)[k] == d);
                            }
                        }
                    }
                    r.push(c);
                }
                x = x + 1;
            }
            y = y + 1;
        }
        r
    }
}

} // verus!
