use snake::common::Direction;
use snake::common::Position;
use snake::food::Food;
use snake::snake::random_snake;
use snake::snake::Snake;
use snake::snake::TailPart;
use snake::snake::COLLISION_SKIP;
use snake::snake::SNAKE_SIZE;
use snake::snake::SNAKE_SPEED;

fn part_at(x: i64, y: i64) -> TailPart {
    TailPart {
        position: Position { x, y },
        size: SNAKE_SIZE,
    }
}

#[test]
fn new_snake_initial_state() {
    let s = Snake::new(Position { x: 100_000, y: 100_000 }, Direction::Right);
    assert_eq!(s.head, Position { x: 100_000, y: 100_000 });
    assert_eq!(s.size, SNAKE_SIZE);
    assert_eq!(s.speed, SNAKE_SPEED);
    assert!(s.is_alive);
    assert_eq!(s.get_direction(), Direction::Right);
    assert_eq!(s.tail.len(), 1);
    assert_eq!(s.tail[0], part_at(100_000, 100_000));
}

#[test]
fn random_snake_is_alive_with_one_segment() {
    for _ in 0..20 {
        let s = random_snake();
        assert!(s.is_alive);
        assert_eq!(s.tail.len(), 1);
        assert_eq!(s.tail[0].position, s.head);
    }
}

#[test]
fn opposite_input_leaves_heading_unchanged() {
    let mut s = Snake::new(Position { x: 0, y: 0 }, Direction::Right);
    s.set_direction(Direction::Left);
    assert_eq!(s.get_direction(), Direction::Right);
    let mut t = Snake::new(Position { x: 0, y: 0 }, Direction::Up);
    t.set_direction(Direction::Down);
    assert_eq!(t.get_direction(), Direction::Up);
}

#[test]
fn perpendicular_and_same_inputs_are_accepted() {
    let mut s = Snake::new(Position { x: 0, y: 0 }, Direction::Right);
    s.set_direction(Direction::Up);
    assert_eq!(s.get_direction(), Direction::Up);
    s.set_direction(Direction::Up);
    assert_eq!(s.get_direction(), Direction::Up);
    s.set_direction(Direction::Right);
    assert_eq!(s.get_direction(), Direction::Right);
}

#[test]
fn one_frame_moves_head_and_closes_neck() {
    // Spawned at (100, 100) pixels heading Right at 200 px/s; after
    // 0.1 s the head is at (120, 100) pixels and the neck holds the old
    // head position.
    let mut s = Snake::new(Position { x: 100_000, y: 100_000 }, Direction::Right);
    s.update(100);
    assert_eq!(s.head, Position { x: 120_000, y: 100_000 });
    assert!(s.is_alive);
    assert_eq!(s.tail.len(), 1);
    assert_eq!(s.tail[0], part_at(100_000, 100_000));
}

#[test]
fn eating_grows_tail_by_one_coincident_segment() {
    let mut s = Snake::new(Position { x: 100_000, y: 100_000 }, Direction::Right);
    s.update(100);
    let mut f = Food::new(Position { x: 120_000, y: 100_000 });
    s.maybe_eat_food(&mut f);
    assert!(f.is_eaten);
    assert_eq!(s.tail.len(), 2);
    assert_eq!(s.tail[0], part_at(100_000, 100_000));
    assert_eq!(s.tail[1], part_at(100_000, 100_000));
}

#[test]
fn eaten_food_is_inert() {
    let mut s = Snake::new(Position { x: 100_000, y: 100_000 }, Direction::Right);
    let mut f = Food::new(Position { x: 100_000, y: 100_000 });
    s.maybe_eat_food(&mut f);
    assert!(f.is_eaten);
    assert_eq!(s.tail.len(), 2);
    let head_before = s.head;
    let tail_before = s.tail.clone();
    s.maybe_eat_food(&mut f);
    assert!(f.is_eaten);
    assert_eq!(s.head, head_before);
    assert_eq!(s.tail, tail_before);
    assert!(s.is_alive);
}

#[test]
fn food_out_of_reach_is_not_eaten() {
    let mut s = Snake::new(Position { x: 100_000, y: 100_000 }, Direction::Right);
    let mut f = Food::new(Position { x: 300_000, y: 300_000 });
    s.maybe_eat_food(&mut f);
    assert!(!f.is_eaten);
    assert_eq!(s.tail.len(), 1);
}

#[test]
fn eating_duplicates_the_tail_end_segment() {
    let mut s = Snake::new(Position { x: 100_000, y: 100_000 }, Direction::Right);
    s.tail.push(part_at(80_000, 100_000));
    let mut f = Food::new(Position { x: 100_000, y: 100_000 });
    s.maybe_eat_food(&mut f);
    assert_eq!(s.tail.len(), 3);
    assert_eq!(s.tail[2], part_at(80_000, 100_000));
}

#[test]
fn crossing_the_low_edge_reenters_at_far_side() {
    // Head at x = 10 px heading Left: one 0.1 s frame carries it past
    // zero, and it re-enters at GRID_SPAN - size = 380 px.
    let mut s = Snake::new(Position { x: 10_000, y: 100_000 }, Direction::Left);
    s.update(100);
    assert_eq!(s.head, Position { x: 380_000, y: 100_000 });
}

#[test]
fn reaching_the_high_edge_exactly_reenters_at_zero() {
    // 380 px + 20 px lands exactly on the 400 px edge, which already
    // wraps (the boundary test is inclusive on the high side).
    let mut s = Snake::new(Position { x: 380_000, y: 100_000 }, Direction::Right);
    s.update(100);
    assert_eq!(s.head, Position { x: 0, y: 100_000 });
}

#[test]
fn vertical_wraparound_mirrors_horizontal() {
    let mut up = Snake::new(Position { x: 100_000, y: 10_000 }, Direction::Up);
    up.update(100);
    assert_eq!(up.head, Position { x: 100_000, y: 380_000 });
    let mut down = Snake::new(Position { x: 100_000, y: 380_000 }, Direction::Down);
    down.update(100);
    assert_eq!(down.head, Position { x: 100_000, y: 0 });
}

#[test]
fn tail_shift_is_order_preserving_and_lossless() {
    let mut s = Snake::new(Position { x: 200_000, y: 200_000 }, Direction::Right);
    s.tail = vec![
        part_at(180_000, 200_000),
        part_at(160_000, 200_000),
        part_at(140_000, 200_000),
    ];
    s.update(0);
    assert_eq!(s.tail.len(), 3);
    // Segment 0 holds the pre-update head position; each later segment
    // holds the value its predecessor held before the update.
    assert_eq!(s.tail[0], part_at(200_000, 200_000));
    assert_eq!(s.tail[1], part_at(180_000, 200_000));
    assert_eq!(s.tail[2], part_at(160_000, 200_000));
}

#[test]
fn overlap_at_threshold_index_is_fatal() {
    let mut s = Snake::new(Position { x: 200_000, y: 200_000 }, Direction::Right);
    s.tail = vec![part_at(200_000, 200_000); COLLISION_SKIP + 1];
    assert!(s.is_alive);
    s.update(0);
    assert!(!s.is_alive);
}

#[test]
fn overlap_below_threshold_is_ignored() {
    let mut s = Snake::new(Position { x: 200_000, y: 200_000 }, Direction::Right);
    s.tail = vec![part_at(200_000, 200_000); COLLISION_SKIP];
    s.update(0);
    assert!(s.is_alive);
}

#[test]
fn death_is_permanent_across_frames() {
    let mut s = Snake::new(Position { x: 200_000, y: 200_000 }, Direction::Right);
    s.tail = vec![part_at(200_000, 200_000); COLLISION_SKIP + 1];
    s.update(0);
    assert!(!s.is_alive);
    s.update(0);
    assert!(!s.is_alive);
}

#[test]
fn first_acceptable_pressed_key_wins() {
    // Heading Right: Up comes first in the scan order and is accepted.
    let mut s = Snake::new(Position { x: 0, y: 0 }, Direction::Right);
    s.capture_input(true, false, true, false);
    assert_eq!(s.get_direction(), Direction::Up);
    // Heading Up: Down is its opposite and is skipped, Left is taken.
    let mut t = Snake::new(Position { x: 0, y: 0 }, Direction::Up);
    t.capture_input(false, true, true, false);
    assert_eq!(t.get_direction(), Direction::Left);
}

#[test]
fn lone_opposite_key_changes_nothing() {
    let mut s = Snake::new(Position { x: 0, y: 0 }, Direction::Up);
    s.capture_input(false, true, false, false);
    assert_eq!(s.get_direction(), Direction::Up);
    s.capture_input(false, false, false, false);
    assert_eq!(s.get_direction(), Direction::Up);
}
