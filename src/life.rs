//! The generation step of the Game of Life rule.

use crate::cells::{alive, neighbor_count, Cell, CellHashSet, Cells};
use rayon::iter::{IntoParallelRefIterator, ParallelIterator};
use vstd::prelude::*;

verus! {

/// Whether `d` is `c` or one of its eight neighbours.
pub open spec fn near(c: Cell, d: Cell) -> bool {
    -1 <= d.0 - c.0 <= 1 && -1 <= d.1 - c.1 <= 1
}

/// Every cell that can change state: each live cell together with its neighbours.
pub open spec fn candidates(s: Set<Cell>) -> Set<Cell> {
    Set::new(|d: Cell| exists|c: Cell| s.contains(c) && near(c, d))
}

/// The birth/survival rule: a live cell with two or three live neighbours
/// survives, a dead cell with exactly three is born, every other cell is dead
/// in the next generation.
pub open spec fn lives_next(s: Set<Cell>, c: Cell) -> bool {
    let n = neighbor_count(s, c.0 as int, c.1 as int);
    if s.contains(c) {
        n == 2 || n == 3
    } else {
        n == 3
    }
}

/// The next generation of `s` on the 64-bit lattice.
pub open spec fn next_generation(s: Set<Cell>) -> Set<Cell> {
    Set::new(|c: Cell| lives_next(s, c))
}

/// Relies on rayon's `par_iter`, `flat_map_iter` and `collect` into a hash set:
/// the result holds exactly the cells that the closure yields for some live cell.
#[verifier::external_body]
fn par_candidates(cells: &Cells) -> (r: CellHashSet)
    ensures
        r@ == candidates(cells@),
{
    cells.live.par_iter().flat_map_iter(|c| block_around(*c)).collect()
}

/// Relies on rayon's `par_iter`, `filter` and `collect` into a hash set: the
/// result holds exactly the members of `cands` for which the closure holds.
#[verifier::external_body]
fn par_survivors(cands: &CellHashSet, cells: &Cells) -> (r: CellHashSet)
    ensures
        r@ == cands@.filter(|c: Cell| lives_next(cells@, c)),
{
    cands.par_iter().copied().filter(|c| cells.survives(*c)).collect()
}

/// `c` and those of its eight neighbours that lie within the coordinate range.
pub fn block_around(c: Cell) -> (r: Vec<Cell>)
    ensures
        forall|d: Cell| #[trigger] r@.contains(d) <==> near(c, d),
{
    let mut r: Vec<Cell> = Vec::new();
    let mut dy: i128 = -1;
    while dy <= 1
        invariant
            -1 <= dy <= 2,
            forall|d: Cell| #[trigger] r@.contains(d) <==> near(c, d) && d.1 - c.1 < dy,
        decreases 2 - dy,
    {
        let y = c.1 as i128 + dy;
        if i64::MIN as i128 <= y && y <= i64::MAX as i128 {
            let mut dx: i128 = -1;
            while dx <= 1
                invariant
                    -1 <= dy <= 1,
                    y == c.1 + dy,
                    i64::MIN <= y <= i64::MAX,
                    -1 <= dx <= 2,
                    forall|d: Cell| #[trigger] r@.contains(d) <==> near(c, d) && (d.1 - c.1 < dy || (d.1 - c.1
                        == dy && d.0 - c.0 < dx)),
                decreases 2 - dx,
            {
                let x = c.0 as i128 + dx;
                if i64::MIN as i128 <= x && x <= i64::MAX as i128 {
                    let e: Cell = (x as i64, y as i64);
                    let ghost before = r@;
                    r.push(e);
                    assert forall|d: Cell| #[trigger] r@.contains(d) <==> near(c, d) && (d.1 - c.1 < dy
                        || (d.1 - c.1 == dy && d.0 - c.0 < dx + 1)) by {
                        if d == e {
                            assert(r@[before.len() as int] == e);
                        } else if before.contains(d) {
                            let k = choose|k: int| 0 <= k < before.len() && before[k] == d;
                            assert(r@[k] == d);
                        } else if r@.contains(d) {
                            let k = choose|k: int| 0 <= k < r@.len() && r@[k] == d;
                            assert(before[k] == d);
                        }
                    }
                } else {
                    assert forall|d: Cell| #[trigger] r@.contains(d) <==> near(c, d) && (d.1 - c.1 < dy
                        || (d.1 - c.1 == dy && d.0 - c.0 < dx + 1)) by {
                        if near(c, d) && d.1 - c.1 == dy {
                            assert(d.0 - c.0 != dx);
                        }
                    }
                }
                dx = dx + 1;
            }
        }
        assert forall|d: Cell| #[trigger] r@.contains(d) <==> near(c, d) && d.1 - c.1 < dy + 1 by {
            if near(c, d) && d.1 - c.1 == dy {
                assert(i64::MIN <= y <= i64::MAX);
            }
        }
        dy = dy + 1;
    }
    r
}

/// A cell with a live neighbour is near some live cell.
proof fn lemma_counted_neighbor_is_near(s: Set<Cell>, d: Cell)
    requires
        neighbor_count(s, d.0 as int, d.1 as int) > 0,
    ensures
        exists|c: Cell| s.contains(c) && near(c, d),
{
    let (x, y) = (d.0 as int, d.1 as int);
    let mut px: int = x - 1;
    let mut py: int = y - 1;
    if alive(s, x - 1, y - 1) {
    } else if alive(s, x, y - 1) {
        px = x;
    } else if alive(s, x + 1, y - 1) {
        px = x + 1;
    } else if alive(s, x - 1, y) {
        py = y;
    } else if alive(s, x + 1, y) {
        px = x + 1;
        py = y;
    } else if alive(s, x - 1, y + 1) {
        py = y + 1;
    } else if alive(s, x, y + 1) {
        px = x;
        py = y + 1;
    } else {
        px = x + 1;
        py = y + 1;
    }
    let c: Cell = (px as i64, py as i64);
    assert(s.contains(c) && near(c, d));
}

/// Every cell of the next generation is a candidate.
proof fn lemma_next_generation_within_candidates(s: Set<Cell>)
    ensures
        next_generation(s) == candidates(s).filter(|c: Cell| lives_next(s, c)),
{
    assert forall|d: Cell| lives_next(s, d) implies #[trigger] candidates(s).contains(d) by {
        if s.contains(d) {
            assert(near(d, d));
        } else {
            lemma_counted_neighbor_is_near(s, d);
        }
    }
    assert(next_generation(s) =~= candidates(s).filter(|c: Cell| lives_next(s, c)));
}

/// The rule, cell by cell: a cell is live in the next generation exactly when
/// it has three live neighbours, or it is live and has two.
pub proof fn lemma_rule(s: Set<Cell>, c: Cell)
    ensures
        next_generation(s).contains(c) <==> (neighbor_count(s, c.0 as int, c.1 as int) == 3 || (
        s.contains(c) && neighbor_count(s, c.0 as int, c.1 as int) == 2)),
{
}

/// The empty lattice is a fixed point: nothing is ever born from nothing.
pub proof fn lemma_empty_is_fixed_point()
    ensures
        next_generation(Set::<Cell>::empty()) == Set::<Cell>::empty(),
{
    assert(next_generation(Set::<Cell>::empty()) =~= Set::<Cell>::empty());
}

impl Cells {
    /// Whether `c` is live in the generation after this one.
    pub fn survives(&self, c: Cell) -> (r: bool)
        ensures
            r == lives_next(self@, c),
    {
        let n = self.count_neighbors(c.0, c.1);
        if self.contains(c) {
            n == 2 || n == 3
        } else {
            n == 3
        }
    }

    /// The next generation. The candidates are collected and judged in
    /// parallel against this generation, which stays untouched; the result
    /// is a fresh, complete set.
    pub fn step(&self) -> (r: Cells)
        ensures
            r@ == next_generation(self@),
    {
        let cands = par_candidates(self);
        let next = par_survivors(&cands, self);
        proof {
            lemma_next_generation_within_candidates(self@);
        }
        Cells::from_hash_set(next)
    }
}

} // verus!
