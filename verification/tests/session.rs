use snake::common::Direction;
use snake::common::Position;
use snake::common::GRID_SPAN;
use snake::food::Food;
use snake::food::FOOD_SIZE;
use snake::session::get_a_bunch_food;
use snake::session::update_foods;
use snake::session::FOOD_POOL_SIZE;
use snake::snake::Snake;

#[test]
fn initial_pool_holds_five_fresh_foods() {
    let foods = get_a_bunch_food();
    assert_eq!(foods.len(), FOOD_POOL_SIZE);
    for f in &foods {
        assert!(!f.is_eaten);
        assert_eq!(f.size, FOOD_SIZE);
        assert!(0 <= f.position.x && f.position.x < GRID_SPAN);
        assert!(0 <= f.position.y && f.position.y < GRID_SPAN);
    }
}

#[test]
fn pool_pass_marks_overlapping_food_and_grows_tail() {
    let mut snake = Snake::new(Position { x: 200_000, y: 200_000 }, Direction::Right);
    let mut foods = vec![
        Food::new(Position { x: 200_000, y: 200_000 }),
        Food::new(Position { x: 20_000, y: 20_000 }),
        Food::new(Position { x: 40_000, y: 300_000 }),
        Food::new(Position { x: 300_000, y: 40_000 }),
        Food::new(Position { x: 360_000, y: 360_000 }),
    ];
    update_foods(&mut foods, &mut snake);
    // Nothing was eaten before the pass, so nothing was removed.
    assert_eq!(foods.len(), 5);
    assert!(foods[0].is_eaten);
    for f in &foods[1..] {
        assert!(!f.is_eaten);
    }
    assert_eq!(snake.tail.len(), 2);
    assert!(snake.is_alive);
}

#[test]
fn eaten_foods_are_replaced_one_for_one() {
    let mut snake = Snake::new(Position { x: 200_000, y: 200_000 }, Direction::Right);
    let mut foods = vec![
        Food::new(Position { x: 20_000, y: 20_000 }),
        Food::new(Position { x: 40_000, y: 300_000 }),
        Food::new(Position { x: 300_000, y: 40_000 }),
        Food::new(Position { x: 360_000, y: 360_000 }),
        Food::new(Position { x: 100_000, y: 300_000 }),
    ];
    foods[2].is_eaten = true;
    update_foods(&mut foods, &mut snake);
    // One food was dropped and exactly one fresh one was spawned.
    assert_eq!(foods.len(), 5);
    assert_eq!(foods[0].position, Position { x: 20_000, y: 20_000 });
    assert_eq!(foods[1].position, Position { x: 40_000, y: 300_000 });
    assert_eq!(foods[2].position, Position { x: 360_000, y: 360_000 });
    assert_eq!(foods[3].position, Position { x: 100_000, y: 300_000 });
    let fresh = &foods[4];
    assert_eq!(fresh.size, FOOD_SIZE);
    assert!(0 <= fresh.position.x && fresh.position.x < GRID_SPAN);
    assert!(0 <= fresh.position.y && fresh.position.y < GRID_SPAN);
}

#[test]
fn two_eaten_foods_get_a_single_replacement() {
    let mut snake = Snake::new(Position { x: 200_000, y: 200_000 }, Direction::Right);
    let mut foods = vec![
        Food::new(Position { x: 20_000, y: 20_000 }),
        Food::new(Position { x: 40_000, y: 300_000 }),
        Food::new(Position { x: 300_000, y: 40_000 }),
        Food::new(Position { x: 360_000, y: 360_000 }),
        Food::new(Position { x: 100_000, y: 300_000 }),
    ];
    foods[0].is_eaten = true;
    foods[4].is_eaten = true;
    update_foods(&mut foods, &mut snake);
    assert_eq!(foods.len(), 4);
    assert_eq!(foods[0].position, Position { x: 40_000, y: 300_000 });
    assert_eq!(foods[1].position, Position { x: 300_000, y: 40_000 });
    assert_eq!(foods[2].position, Position { x: 360_000, y: 360_000 });
}
