use lifegrid::cells::{Cell, Cells};

fn cells_of(list: &[Cell]) -> Cells {
    let mut c = Cells::new();
    for &p in list {
        c.insert(p);
    }
    c
}

fn same_set(c: &Cells, list: &[Cell]) -> bool {
    c.len() == list.len() && list.iter().all(|&p| c.contains(p))
}

#[test]
fn insert_remove_contains_clear() {
    let mut c = Cells::new();
    assert!(c.is_empty());
    assert!(c.insert((3, -4)));
    assert!(!c.insert((3, -4)));
    assert!(c.contains((3, -4)));
    assert!(!c.contains((-4, 3)));
    assert_eq!(c.len(), 1);
    assert!(c.remove((3, -4)));
    assert!(!c.remove((3, -4)));
    assert!(!c.contains((3, -4)));
    c.insert((1, 1));
    c.insert((2, 2));
    c.clear();
    assert!(c.is_empty());
    assert_eq!(c.len(), 0);
}

#[test]
fn count_neighbors_excludes_self() {
    let c = cells_of(&[(0, 0), (1, 0), (0, 1), (1, 1)]);
    assert_eq!(c.count_neighbors(0, 0), 3);
    assert_eq!(c.count_neighbors(5, 5), 0);
    assert_eq!(c.count_neighbors(2, 2), 1);
    assert_eq!(c.count_neighbors(-1, 0), 2);
}

#[test]
fn count_neighbors_full_ring() {
    let mut c = Cells::new();
    for dx in -1..=1 {
        for dy in -1..=1 {
            c.insert((10 + dx, -7 + dy));
        }
    }
    assert_eq!(c.count_neighbors(10, -7), 8);
}

#[test]
fn count_neighbors_does_not_wrap_at_edge() {
    let c = cells_of(&[(i64::MIN, 0), (i64::MAX - 1, 0)]);
    assert_eq!(c.count_neighbors(i64::MAX, 0), 1);
    assert_eq!(c.count_neighbors(i64::MIN, 1), 1);
}

#[test]
fn subset_is_row_major_and_inclusive() {
    let c = cells_of(&[(0, 0), (2, 0), (1, 1), (0, 2), (3, 3), (-1, 0)]);
    let r = c.subset((0, 0), (2, 2));
    assert_eq!(r, vec![(0, 0), (2, 0), (1, 1), (0, 2)]);
}

#[test]
fn subset_empty_rectangle_region() {
    let c = cells_of(&[(0, 0), (5, 5)]);
    assert!(c.subset((1, 1), (4, 4)).is_empty());
    assert!(c.subset((3, 3), (1, 1)).is_empty());
}

#[test]
fn subset_negative_coordinates() {
    let c = cells_of(&[(-5, -5), (-3, -4), (-1, -1), (0, 0)]);
    assert_eq!(c.subset((-5, -5), (-2, -2)), vec![(-5, -5), (-3, -4)]);
    assert_eq!(c.subset((-1, -1), (-1, -1)), vec![(-1, -1)]);
}

#[test]
fn step_empty_is_fixed_point() {
    let c = Cells::new();
    let n = c.step();
    assert!(n.is_empty());
    assert!(n.step().is_empty());
}

#[test]
fn step_block_is_still_life() {
    let block = [(0, 0), (1, 0), (0, 1), (1, 1)];
    let n = cells_of(&block).step();
    assert!(same_set(&n, &block));
}

#[test]
fn step_blinker_oscillates() {
    let start = [(1, 0), (1, 1), (1, 2)];
    let once = cells_of(&start).step();
    assert!(same_set(&once, &[(0, 1), (1, 1), (2, 1)]));
    let twice = once.step();
    assert!(same_set(&twice, &start));
}

#[test]
fn step_rule_cases() {
    // a lone cell and a pair die
    assert!(cells_of(&[(0, 0)]).step().is_empty());
    assert!(cells_of(&[(0, 0), (1, 0)]).step().is_empty());
    // three in an L: each survives with two neighbours, and the corner is born
    let l = cells_of(&[(0, 0), (1, 0), (0, 1)]).step();
    assert!(same_set(&l, &[(0, 0), (1, 0), (0, 1), (1, 1)]));
    // the centre of a plus has four neighbours and dies
    let plus = cells_of(&[(0, 0), (1, 0), (-1, 0), (0, 1), (0, -1)]).step();
    assert!(!plus.contains((0, 0)));
    assert!(plus.contains((1, 1)) && plus.contains((-1, -1)));
}

#[test]
fn survives_matches_rule() {
    let c = cells_of(&[(0, 0), (1, 0), (2, 0)]);
    assert!(c.survives((1, 0)));
    assert!(!c.survives((0, 0)));
    assert!(c.survives((1, 1)));
    assert!(c.survives((1, -1)));
    assert!(!c.survives((3, 0)));
}

#[test]
fn step_glider_moves() {
    let glider = [(1, 0), (2, 1), (0, 2), (1, 2), (2, 2)];
    let mut c = cells_of(&glider);
    for _ in 0..4 {
        c = c.step();
    }
    let moved: Vec<Cell> = glider.iter().map(|&(x, y)| (x + 1, y + 1)).collect();
    assert!(same_set(&c, &moved));
}

#[test]
fn block_around_cuts_at_range_edge() {
    let mut r = lifegrid::life::block_around((i64::MAX, 0));
    r.sort();
    assert_eq!(
        r,
        vec![(i64::MAX - 1, -1), (i64::MAX - 1, 0), (i64::MAX - 1, 1), (i64::MAX, -1), (i64::MAX, 0), (i64::MAX, 1)]
    );
    assert_eq!(lifegrid::life::block_around((0, 0)).len(), 9);
}

#[test]
fn place_inserts_translated_offsets_only() {
    let mut c = cells_of(&[(100, 100)]);
    c.place((5, -2), &vec![(0, 0), (1, 0), (0, 1)]);
    assert!(same_set(&c, &[(100, 100), (5, -2), (6, -2), (5, -1)]));
    let mut edge = Cells::new();
    edge.place((i64::MAX, 0), &vec![(0, 0), (1, 0)]);
    assert!(same_set(&edge, &[(i64::MAX, 0)]));
}
