use lifegrid::cells::Cells;
use lifegrid::game::{Command, Game, TickRate};
use lifegrid::patterns::Pattern;
use lifegrid::raster::samples_per_side;
use lifegrid::view::{Cursor, Direction, Translate, View};

fn zoomed_view(bc: i64, br: i64) -> View {
    let mut v = View::default();
    v.bounds = (bc, br);
    v
}

#[test]
fn cursor_wraps_past_positive_column_bound() {
    let mut v = zoomed_view(10, 10);
    v.cursor.offset_col = 8;
    v.move_cursor(Direction::Right);
    assert_eq!(v.cursor.offset_col, -10);
    v.move_cursor(Direction::Left);
    assert_eq!(v.cursor.offset_col, 8);
    v.move_cursor(Direction::Left);
    assert_eq!(v.cursor.offset_col, 6);
    v.cursor.offset_col = 10;
    v.move_cursor(Direction::Right);
    assert_eq!(v.cursor.offset_col, -10);
}

#[test]
fn cursor_wraps_past_row_bounds() {
    let mut v = zoomed_view(10, 10);
    v.cursor.offset_row = -10;
    v.move_cursor(Direction::Down);
    assert_eq!(v.cursor.offset_row, 8);
    v.move_cursor(Direction::Up);
    assert_eq!(v.cursor.offset_row, -10);
    v.move_cursor(Direction::Up);
    assert_eq!(v.cursor.offset_row, -8);
}

#[test]
fn cursor_stays_put_in_zero_bounds() {
    let mut v = View::default();
    assert_eq!(v.bounds, (0, 0));
    for d in [Direction::Right, Direction::Down, Direction::Left, Direction::Up] {
        v.move_cursor(d);
        assert!(v.cursor.at(0, 0));
    }
}

#[test]
fn cursor_range_keeps_its_size_with_unaligned_bounds() {
    let mut v = zoomed_view(5, 5);
    v.cursor.offset_row = 4;
    v.cursor.offset_col = 5;
    v.move_cursor(Direction::Up);
    assert_eq!(v.cursor.offset_row, -5);
    assert_eq!(v.cursor.offset_col, 5);
    v.cursor.offset_col = -2;
    v.move_cursor(Direction::Left);
    assert_eq!(v.cursor.offset_col, -4);
    v.move_cursor(Direction::Left);
    assert_eq!(v.cursor.offset_col, 3);
    let mut seen = Vec::new();
    for _ in 0..5 {
        v.move_cursor(Direction::Right);
        seen.push(v.cursor.offset_col);
    }
    assert_eq!(seen, vec![-5, -3, -1, 1, 3]);
    v.move_cursor(Direction::Right);
    assert_eq!(v.cursor.offset_col, -5);
}

#[test]
fn cursor_stays_in_bounds_over_many_moves() {
    let mut v = zoomed_view(7, 5);
    let dirs = [Direction::Right, Direction::Up, Direction::Left, Direction::Down];
    for i in 0..200 {
        v.move_cursor(dirs[(i * 7 + i / 3) % 4]);
        assert!(v.cursor.offset_col.abs() <= 7);
        assert!(v.cursor.offset_row.abs() <= 5);
    }
}

#[test]
fn cursor_does_not_move_when_zoomed_out() {
    let mut v = zoomed_view(10, 10);
    v.zoom_out();
    v.move_cursor(Direction::Right);
    assert!(v.cursor.at(0, 0));
    v.zoom_out();
    assert!(!v.zoom);
    v.zoom_in();
    v.zoom_in();
    assert!(v.zoom);
}

#[test]
fn fit_sets_bounds_and_clamps_cursor() {
    let mut v = View::default();
    v.cursor.offset_col = 2;
    v.cursor.offset_row = -2;
    v.fit(40, 10);
    assert_eq!(v.bounds, (40, 20));
    v.zoom_out();
    v.fit(40, 10);
    assert_eq!(v.bounds, (80, 40));
    v.zoom_in();
    v.fit(1, 0);
    assert_eq!(v.bounds, (1, 0));
    assert!(v.cursor.at(0, 1));
}

#[test]
fn visible_rect_rounds_outwards() {
    let mut v = View::default();
    v.fit(41, 10);
    // half-extents 20.5 columns and 10 rows around the origin
    assert_eq!(v.visible_rect(), ((-21, -10), (21, 10)));
    v.translate.right();
    assert_eq!(v.visible_rect(), ((-20, -10), (22, 10)));
    v.translate.down();
    v.translate.down();
    assert_eq!(v.visible_rect(), ((-20, -12), (22, 8)));
}

#[test]
fn pan_saturates_at_limit() {
    let mut t = Translate { row: lifegrid::view::PAN_LIMIT, col: -lifegrid::view::PAN_LIMIT };
    t.up();
    t.left();
    assert_eq!(t.row, lifegrid::view::PAN_LIMIT);
    assert_eq!(t.col, -lifegrid::view::PAN_LIMIT);
    t.down();
    t.right();
    assert_eq!(t.row, lifegrid::view::PAN_LIMIT - 2);
    assert_eq!(t.col, -lifegrid::view::PAN_LIMIT + 2);
}

#[test]
fn target_origin_rounds_half_away_from_zero() {
    let mut v = zoomed_view(20, 20);
    v.cursor.offset_col = 3;
    v.cursor.offset_row = -3;
    assert_eq!(v.target_origin(), (2, -2));
    v.translate.col = 4;
    v.cursor.offset_row = -4;
    assert_eq!(v.target_origin(), (4, -2));
}

#[test]
fn place_pattern_at_cursor() {
    let mut v = zoomed_view(20, 20);
    v.cursor.pattern = Pattern::Blinker;
    v.cursor.offset_col = 4;
    v.translate.row = 6;
    let mut cells = Cells::new();
    cells.insert((-9, -9));
    v.place_pattern(&mut cells);
    assert_eq!(cells.len(), 4);
    assert!(cells.contains((1, 3)) && cells.contains((2, 3)) && cells.contains((3, 3)));
    assert!(cells.contains((-9, -9)));
}

#[test]
fn preview_points_in_halves() {
    let mut v = zoomed_view(20, 20);
    v.cursor.pattern = Pattern::Block;
    v.cursor.offset_col = 1;
    v.translate.row = -2;
    assert_eq!(v.preview(), vec![(1, -2), (3, -2), (1, 0), (3, 0)]);
}

#[test]
fn pattern_cycle_wraps() {
    let mut p = Pattern::default();
    assert_eq!(p, Pattern::Dot);
    p.prev();
    assert_eq!(p, Pattern::RPentomino);
    p.next();
    p.next();
    assert_eq!(p, Pattern::Block);
    assert_eq!(p.name(), "block");
    assert_eq!(Pattern::Glider.coords().len(), 5);
}

#[test]
fn cursor_toggle_and_at() {
    let mut c = Cursor::default();
    assert!(!c.hidden);
    c.toggle();
    assert!(c.hidden);
    c.offset_row = 4;
    assert!(c.at(4, 0));
    assert!(!c.at(0, 4));
}

#[test]
fn tick_rate_cycles() {
    let mut t = TickRate::Normal;
    t.increase();
    assert_eq!(t, TickRate::Fast);
    t.increase();
    assert_eq!(t, TickRate::Slow);
    t.decrease();
    assert_eq!(t, TickRate::Fast);
    assert_eq!(TickRate::Slow.interval_nanos(), 1_000_000_000);
    assert_eq!(TickRate::Normal.interval_nanos(), 200_000_000);
    assert_eq!(TickRate::Fast.interval_nanos(), 100_000_000);
}

#[test]
fn advance_runs_whole_ticks_only_when_running() {
    let mut g = Game::new();
    g.cells.insert((1, 0));
    g.cells.insert((1, 1));
    g.cells.insert((1, 2));
    assert_eq!(g.advance(5_000_000_000), 0);
    assert_eq!(g.pending_nanos, 0);
    assert!(g.apply(Command::TogglePause));
    assert_eq!(g.advance(250_000_000), 1);
    assert_eq!(g.pending_nanos, 50_000_000);
    assert!(g.cells.contains((0, 1)) && g.cells.contains((2, 1)));
    assert_eq!(g.advance(350_000_000), 2);
    assert_eq!(g.pending_nanos, 0);
    assert!(g.cells.contains((0, 1)) && !g.cells.contains((1, 0)));
}

#[test]
fn apply_commands() {
    let mut g = Game::new();
    g.view.fit(40, 10);
    assert!(g.apply(Command::MoveCursor(Direction::Right)));
    assert!(g.view.cursor.at(0, 2));
    assert!(g.apply(Command::NextPattern));
    assert_eq!(g.view.cursor.pattern, Pattern::Block);
    assert!(g.apply(Command::Place));
    assert_eq!(g.cells.len(), 4);
    assert!(g.cells.contains((1, 0)) && g.cells.contains((2, 1)));
    assert!(g.apply(Command::ToggleCursor));
    assert!(g.apply(Command::Pan(Direction::Left)));
    assert!(g.apply(Command::Place));
    assert_eq!(g.cells.len(), 4);
    assert_eq!(g.view.translate.col, -2);
    assert!(g.apply(Command::ToggleZoom));
    assert!(!g.view.zoom);
    assert!(g.apply(Command::ToggleControls));
    assert!(!g.view.controls);
    assert!(g.apply(Command::Slower));
    assert_eq!(g.tick_rate, TickRate::Slow);
    assert!(g.apply(Command::Faster));
    assert_eq!(g.tick_rate, TickRate::Normal);
    assert!(g.apply(Command::PrevPattern));
    assert_eq!(g.view.cursor.pattern, Pattern::Dot);
    assert!(g.apply(Command::Clear));
    assert!(g.cells.is_empty());
    assert!(!g.apply(Command::Quit));
}

#[test]
fn update_and_place_pattern_on_game() {
    let mut g = Game::new();
    g.view.fit(20, 20);
    g.view.cursor.pattern = Pattern::Blinker;
    g.place_pattern();
    assert_eq!(g.cells.len(), 3);
    g.update();
    assert!(g.cells.contains((0, 1)) && g.cells.contains((0, -1)) && g.cells.contains((0, 0)));
    assert_eq!(g.cells.len(), 3);
}

#[test]
fn samples_per_side_clamps() {
    assert_eq!(samples_per_side(1, 1), 10);
    assert_eq!(samples_per_side(10, 1), 30);
    assert_eq!(samples_per_side(11, 2), 16);
    assert_eq!(samples_per_side(100, 1), 50);
    assert_eq!(samples_per_side(7, 2), 10);
    assert_eq!(samples_per_side(u64::MAX, 1), 50);
}
