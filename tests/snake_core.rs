use snek::apple::{first_free_cell, spawn};
use snek::clock::{advance, interval, step_due, MAX_INTERVAL, MIN_INTERVAL, RAMP_DURATION};
use snek::game::{requested_direction, Game};
use snek::grid::{Coordinate, Direction, Grid, GRID_HEIGHT, GRID_WIDTH};
use snek::snake::{segment_size, Snake};

fn c(x: i32, y: i32) -> Coordinate {
    Coordinate::new(x, y)
}

fn board() -> Grid {
    Grid::standard()
}

#[test]
fn grid_rejects_empty_sides() {
    assert!(Grid::new(0, 10).is_none());
    assert!(Grid::new(14, -1).is_none());
    let g = Grid::new(14, 10).unwrap();
    assert_eq!(g, board());
    assert_eq!((g.width, g.height), (GRID_WIDTH, GRID_HEIGHT));
}

#[test]
fn wrap_moves_across_every_edge() {
    let g = board();
    assert_eq!(g.neighbour(c(0, 0), Direction::Left), c(13, 0));
    assert_eq!(g.neighbour(c(13, 5), Direction::Right), c(0, 5));
    assert_eq!(g.neighbour(c(3, 0), Direction::Down), c(3, 9));
    assert_eq!(g.neighbour(c(3, 9), Direction::Up), c(3, 0));
    assert_eq!(g.neighbour(c(4, 4), Direction::Up), c(4, 5));
}

#[test]
fn wrap_stays_on_board_for_every_cell_and_direction() {
    let g = board();
    let dirs = [Direction::Left, Direction::Right, Direction::Up, Direction::Down];
    for x in 0..GRID_WIDTH {
        for y in 0..GRID_HEIGHT {
            for d in dirs {
                let n = g.neighbour(c(x, y), d);
                assert!(g.contains(n));
            }
        }
    }
    assert_eq!(g.wrap(c(-1, 10)), c(13, 0));
}

#[test]
fn direction_vectors_and_opposites() {
    assert_eq!(Direction::Up.vector(), c(0, 1));
    assert_eq!(Direction::Down.vector(), c(0, -1));
    assert_eq!(Direction::Left.vector(), c(-1, 0));
    assert_eq!(Direction::Right.vector(), c(1, 0));
    assert_eq!(Direction::Up.opposite(), Direction::Down);
    assert_eq!(Direction::Left.opposite(), Direction::Right);
    assert_eq!(c(2, 3).add(c(-1, 4)), c(1, 7));
}

#[test]
fn reverse_request_is_ignored() {
    let mut s = Snake::new(board(), c(7, 5));
    s.set_direction(Direction::Left);
    assert_eq!(s.direction(), Direction::Right);
    s.set_direction(Direction::Up);
    assert_eq!(s.direction(), Direction::Up);
    s.set_direction(Direction::Down);
    assert_eq!(s.direction(), Direction::Up);
    s.set_direction(Direction::Left);
    assert_eq!(s.direction(), Direction::Left);
}

#[test]
fn pressed_keys_map_to_one_request() {
    assert_eq!(requested_direction(Direction::Right, true, false, true, false), Some(Direction::Up));
    assert_eq!(requested_direction(Direction::Up, true, false, false, true), Some(Direction::Left));
    assert_eq!(requested_direction(Direction::Up, false, false, false, true), None);
    assert_eq!(requested_direction(Direction::Down, false, true, false, false), Some(Direction::Right));
    assert_eq!(requested_direction(Direction::Down, false, false, false, false), None);
}

#[test]
fn no_tick_reverses_the_snake() {
    let mut g = Game::new(board());
    assert!(g.place_apple(c(0, 0)));
    let requests = [Direction::Left, Direction::Up, Direction::Down, Direction::Right, Direction::Left];
    for d in requests {
        let before = g.snake().direction();
        g.update(Some(d), 400, 0);
        assert_ne!(g.snake().direction(), before.opposite());
    }
}

#[test]
fn interval_ramp() {
    assert_eq!(interval(0), MAX_INTERVAL);
    assert_eq!(interval(RAMP_DURATION), MIN_INTERVAL);
    assert_eq!(interval(RAMP_DURATION + 1), MIN_INTERVAL);
    assert_eq!(interval(u64::MAX), MIN_INTERVAL);
    assert_eq!(interval(30_000), 225);
    assert_eq!(interval(1_000), 298);
    let mut last = interval(0);
    let mut t = 0;
    while t <= 70_000 {
        let now = interval(t);
        assert!(now <= last);
        last = now;
        t += 250;
    }
}

#[test]
fn clock_steps_only_past_the_interval() {
    assert!(!step_due(300, 0));
    assert!(step_due(301, 0));
    let t = advance(200, 50, 0);
    assert!(!t.step);
    assert_eq!(t.since_last_step, 250);
    let t = advance(200, 200, 0);
    assert!(t.step);
    assert_eq!(t.since_last_step, 0);
    let t = advance(u64::MAX, 5, 0);
    assert!(t.step);
}

#[test]
fn large_frame_takes_a_single_step() {
    let mut g = Game::new(board());
    assert!(g.place_apple(c(0, 0)));
    let stepped = g.update(None, 5 * MIN_INTERVAL, 0);
    assert!(stepped);
    assert_eq!(g.snake().history().len(), 2);
    assert_eq!(g.snake().head(), c(8, 5));
    assert_eq!(g.snake().time_since_last_step(), 0);
}

#[test]
fn short_frames_accumulate() {
    let mut g = Game::new(board());
    assert!(g.place_apple(c(0, 0)));
    assert!(!g.update(None, 200, 0));
    assert_eq!(g.snake().time_since_last_step(), 200);
    assert!(g.update(None, 200, 0));
    assert_eq!(g.snake().time_since_last_step(), 0);
    assert_eq!(g.snake().head(), c(8, 5));
}

#[test]
fn collision_when_head_meets_visible_body() {
    let history = vec![c(1, 1), c(2, 1), c(2, 2), c(1, 2), c(1, 1)];
    let s = Snake::from_history(board(), history.clone(), 5, Direction::Down).unwrap();
    assert!(s.detect_self_collision());
    let s = Snake::from_history(board(), history, 4, Direction::Down).unwrap();
    assert!(!s.detect_self_collision());
    let straight = vec![c(1, 1), c(2, 1), c(3, 1), c(4, 1)];
    let s = Snake::from_history(board(), straight, 4, Direction::Right).unwrap();
    assert!(!s.detect_self_collision());
}

#[test]
fn from_history_rejects_bad_input() {
    assert!(Snake::from_history(board(), vec![], 1, Direction::Up).is_none());
    assert!(Snake::from_history(board(), vec![c(1, 1)], 0, Direction::Up).is_none());
    assert!(Snake::from_history(board(), vec![c(1, 1)], 2, Direction::Up).is_none());
    assert!(Snake::from_history(board(), vec![c(1, 1), c(14, 1)], 1, Direction::Up).is_none());
}

#[test]
fn visible_segments_are_head_first() {
    let s = Snake::from_history(board(), vec![c(1, 1), c(2, 1), c(3, 1), c(4, 1)], 3, Direction::Right).unwrap();
    assert_eq!(s.visible_segments(), vec![c(4, 1), c(3, 1), c(2, 1)]);
    assert_eq!(s.get_body_part_coordinate(3), c(1, 1));
    assert!(s.occupies(c(2, 1)));
    assert!(!s.occupies(c(1, 1)));
}

#[test]
fn segment_sizes_taper() {
    let s = segment_size(0, 1);
    assert_eq!((s.numerator, s.denominator), (45, 50));
    let s = segment_size(4, 5);
    assert_eq!((s.numerator, s.denominator), (25, 50));
    let s = segment_size(2, 10);
    assert_eq!((s.numerator, s.denominator), (80, 100));
    let s = segment_size(9, 10);
    assert_eq!((s.numerator, s.denominator), (45, 100));
}

#[test]
fn segments_report_cell_and_size() {
    let s = Snake::from_history(board(), vec![c(1, 1), c(2, 1), c(3, 1), c(4, 1)], 3, Direction::Right).unwrap();
    let parts = s.segments_with_sizes();
    assert_eq!(parts.len(), 3);
    assert_eq!(parts[0].0, c(4, 1));
    assert_eq!((parts[0].1.numerator, parts[0].1.denominator), (45, 50));
    assert_eq!(parts[2].0, c(2, 1));
    assert_eq!((parts[2].1.numerator, parts[2].1.denominator), (35, 50));
}

#[test]
fn spawn_avoids_the_body() {
    let tiny = Grid::new(2, 2).unwrap();
    let s = Snake::from_history(tiny, vec![c(0, 0), c(1, 0), c(1, 1)], 3, Direction::Left).unwrap();
    for _ in 0..50 {
        assert_eq!(spawn(&s), Some(c(0, 1)));
    }
    assert_eq!(first_free_cell(&s), Some(c(0, 1)));
    let full = Snake::from_history(tiny, vec![c(0, 0), c(1, 0), c(1, 1), c(0, 1)], 4, Direction::Up).unwrap();
    assert_eq!(spawn(&full), None);
    assert_eq!(first_free_cell(&full), None);
    let shorter = Snake::from_history(tiny, vec![c(0, 0), c(1, 0), c(1, 1), c(0, 1)], 3, Direction::Up).unwrap();
    assert_eq!(first_free_cell(&shorter), Some(c(0, 0)));
}

#[test]
fn spawn_draws_cells_on_the_board() {
    let g = board();
    let s = Snake::new(g, c(7, 5));
    for _ in 0..200 {
        let a = spawn(&s).unwrap();
        assert!(g.contains(a));
        assert_ne!(a, c(7, 5));
    }
}

#[test]
fn new_game_places_first_apple() {
    let g = Game::new(board());
    assert_eq!(g.snake().head(), c(7, 5));
    assert_eq!(g.snake().length(), 1);
    assert_eq!(g.snake().direction(), Direction::Right);
    let a = g.apple().unwrap();
    assert!(board().contains(a));
    assert_ne!(a, c(7, 5));
    assert_eq!(g.apples_eaten(), 0);
    assert!(!g.is_over());
}

#[test]
fn place_apple_refuses_body_and_off_board() {
    let mut g = Game::new(board());
    assert!(!g.place_apple(c(7, 5)));
    assert!(!g.place_apple(c(14, 0)));
    assert!(g.place_apple(c(3, 3)));
    assert_eq!(g.apple(), Some(c(3, 3)));
}

#[test]
fn three_steps_then_eat() {
    let mut g = Game::new(board());
    assert!(g.place_apple(c(0, 0)));
    assert!(g.update(None, 301, 0));
    assert!(g.update(None, 301, 0));
    assert_eq!(g.snake().head(), c(9, 5));
    assert!(g.place_apple(c(10, 5)));
    assert!(g.update(None, 301, 0));
    assert_eq!(g.snake().head(), c(10, 5));
    assert_eq!(g.snake().history(), &vec![c(7, 5), c(8, 5), c(9, 5), c(10, 5)]);
    assert!(!g.is_over());
    assert_eq!(g.snake().length(), 2);
    assert_eq!(g.apples_eaten(), 1);
    let a = g.apple().unwrap();
    assert_ne!(a, c(10, 5));
    assert_ne!(a, c(9, 5));
    assert!(board().contains(a));
}

#[test]
fn three_steps_without_apple() {
    let mut g = Game::new(board());
    assert!(g.place_apple(c(0, 0)));
    for _ in 0..3 {
        assert!(g.update(None, 301, 0));
    }
    assert_eq!(g.snake().head(), c(10, 5));
    assert_eq!(g.snake().history(), &vec![c(7, 5), c(8, 5), c(9, 5), c(10, 5)]);
    assert!(!g.snake().detect_self_collision());
    assert!(!g.is_over());
    assert_eq!(g.snake().length(), 1);
}

#[test]
fn growth_tracks_apples_eaten() {
    let mut g = Game::new(board());
    let mut eaten = 0;
    for _ in 0..5 {
        let next = board().neighbour(g.snake().head(), Direction::Right);
        assert!(g.place_apple(next));
        assert!(g.update(None, 301, 0));
        eaten += 1;
        assert_eq!(g.apples_eaten(), eaten);
        assert_eq!(g.snake().length(), 1 + eaten);
        assert!(g.snake().history().len() >= g.snake().length());
    }
}

#[test]
fn turning_into_the_body_ends_the_session() {
    let mut g = Game::new(board());
    for _ in 0..4 {
        let next = board().neighbour(g.snake().head(), Direction::Right);
        assert!(g.place_apple(next));
        assert!(g.update(None, 301, 0));
    }
    assert!(g.place_apple(c(0, 0)));
    assert_eq!(g.snake().length(), 5);
    assert!(g.update(Some(Direction::Up), 301, 0));
    assert!(g.update(Some(Direction::Left), 301, 0));
    assert!(!g.is_over());
    assert!(g.update(Some(Direction::Down), 301, 0));
    assert!(g.is_over());
    let before = g.snake().history().len();
    assert!(!g.update(None, 1_000, 0));
    assert_eq!(g.snake().history().len(), before);
}
