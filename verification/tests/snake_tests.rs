use snake_engine::color::DisplayColor;
use snake_engine::snake::{Direction, Pixel, Point, Snake, INITIAL_LENGTH};

const GREEN: DisplayColor = DisplayColor { r: 3, g: 40, b: 5 };

fn points<const N: usize>(snake: &Snake<N>) -> Vec<(i32, i32)> {
    let mut out = Vec::new();
    for i in 0..snake.len() {
        let cell = snake.part(i);
        out.push((cell.point.x, cell.point.y));
    }
    out
}

fn turn_and_step<const N: usize>(snake: &mut Snake<N>, direction: Direction) {
    snake.set_direction(direction);
    snake.make_step();
}

#[test]
fn new_snake_lies_in_a_row_with_its_head_in_the_middle() {
    let snake = Snake::<16>::new(GREEN, 20, 10);
    assert_eq!(snake.len(), INITIAL_LENGTH);
    assert_eq!(snake.len(), 5);
    assert_eq!(snake.direction(), Direction::Right);
    assert_eq!(snake.width(), 20);
    assert_eq!(snake.height(), 10);
    assert_eq!(points(&snake), vec![(10, 5), (9, 5), (8, 5), (7, 5), (6, 5)]);
    assert_eq!(snake.head(), Pixel { point: Point { x: 10, y: 5 }, color: GREEN });
    assert_eq!(snake.tail(), Pixel { point: Point { x: 6, y: 5 }, color: GREEN });
}

#[test]
fn new_snake_on_a_narrow_board_begins_left_of_it() {
    let snake = Snake::<6>::new(GREEN, 3, 1);
    assert_eq!(points(&snake), vec![(1, 0), (0, 0), (-1, 0), (-2, 0), (-3, 0)]);
    let tiny = Snake::<6>::new(GREEN, 1, 1);
    assert_eq!(points(&tiny), vec![(0, 0), (-1, 0), (-2, 0), (-3, 0), (-4, 0)]);
}

#[test]
fn reversal_is_rejected() {
    let mut snake = Snake::<16>::new(GREEN, 20, 10);
    snake.set_direction(Direction::Right);
    snake.set_direction(Direction::Left);
    assert_eq!(snake.direction(), Direction::Right);
}

#[test]
fn set_direction_for_every_pair_of_directions() {
    let all = [Direction::Left, Direction::Right, Direction::Up, Direction::Down];
    let reverse = [Direction::Right, Direction::Left, Direction::Down, Direction::Up];
    for (i, &facing) in all.iter().enumerate() {
        for &wanted in all.iter() {
            let mut snake = Snake::<16>::new(GREEN, 20, 10);
            // Reach `facing` from the right-facing start by way of a side.
            if facing == Direction::Left {
                snake.set_direction(Direction::Up);
            }
            snake.set_direction(facing);
            assert_eq!(snake.direction(), facing);
            snake.set_direction(wanted);
            if wanted == reverse[i] {
                assert_eq!(snake.direction(), facing);
            } else {
                assert_eq!(snake.direction(), wanted);
            }
        }
    }
}

#[test]
fn neutral_direction_changes_nothing() {
    let mut snake = Snake::<16>::new(GREEN, 20, 10);
    snake.set_direction(Direction::Neutral);
    assert_eq!(snake.direction(), Direction::Right);
    snake.set_direction(Direction::Down);
    snake.set_direction(Direction::Neutral);
    assert_eq!(snake.direction(), Direction::Down);
    assert_eq!(points(&snake), vec![(10, 5), (9, 5), (8, 5), (7, 5), (6, 5)]);
}

#[test]
fn step_moves_the_head_and_shifts_the_body() {
    let mut snake = Snake::<16>::new(GREEN, 20, 10);
    snake.make_step();
    assert_eq!(points(&snake), vec![(11, 5), (10, 5), (9, 5), (8, 5), (7, 5)]);
    turn_and_step(&mut snake, Direction::Up);
    assert_eq!(points(&snake), vec![(11, 4), (11, 5), (10, 5), (9, 5), (8, 5)]);
    turn_and_step(&mut snake, Direction::Left);
    assert_eq!(points(&snake), vec![(10, 4), (11, 4), (11, 5), (10, 5), (9, 5)]);
    turn_and_step(&mut snake, Direction::Down);
    assert_eq!(snake.direction(), Direction::Down);
    assert_eq!(points(&snake), vec![(10, 5), (10, 4), (11, 4), (11, 5), (10, 5)]);
    assert_eq!(snake.head().color, GREEN);
}

#[test]
fn step_wraps_around_every_edge() {
    let mut snake = Snake::<16>::new(GREEN, 4, 3);
    assert_eq!(snake.head().point, Point { x: 2, y: 1 });
    snake.make_step();
    assert_eq!(snake.head().point, Point { x: 3, y: 1 });
    snake.make_step();
    assert_eq!(snake.head().point, Point { x: 0, y: 1 });
    turn_and_step(&mut snake, Direction::Up);
    assert_eq!(snake.head().point, Point { x: 0, y: 0 });
    snake.make_step();
    assert_eq!(snake.head().point, Point { x: 0, y: 2 });
    turn_and_step(&mut snake, Direction::Left);
    assert_eq!(snake.head().point, Point { x: 3, y: 2 });
    turn_and_step(&mut snake, Direction::Down);
    assert_eq!(snake.head().point, Point { x: 3, y: 0 });
}

#[test]
fn step_on_a_board_of_one_cell_stays_put() {
    let mut snake = Snake::<6>::new(GREEN, 1, 1);
    snake.make_step();
    assert_eq!(snake.head().point, Point { x: 0, y: 0 });
    assert_eq!(points(&snake), vec![(0, 0), (0, 0), (-1, 0), (-2, 0), (-3, 0)]);
    assert!(snake.check_collision());
}

#[test]
fn grow_adds_the_cell_that_the_tail_left() {
    let mut snake = Snake::<16>::new(GREEN, 20, 10);
    snake.make_step();
    snake.grow();
    assert_eq!(snake.len(), 6);
    assert_eq!(points(&snake), vec![(11, 5), (10, 5), (9, 5), (8, 5), (7, 5), (6, 5)]);
}

#[test]
fn grow_before_any_step_adds_the_first_cell_of_the_board() {
    let mut snake = Snake::<16>::new(GREEN, 20, 10);
    snake.grow();
    assert_eq!(points(&snake), vec![(10, 5), (9, 5), (8, 5), (7, 5), (6, 5), (0, 0)]);
}

#[test]
fn growth_is_capped_below_the_store() {
    let mut snake = Snake::<8>::new(GREEN, 20, 10);
    let mut last = snake.len();
    for _ in 0..20 {
        snake.grow();
        assert!(snake.len() >= last);
        assert!(snake.len() <= 7);
        last = snake.len();
    }
    assert_eq!(snake.len(), 7);
    // A full snake still steps.
    snake.make_step();
    assert_eq!(snake.len(), 7);
    assert_eq!(snake.head().point, Point { x: 11, y: 5 });
}

#[test]
fn growth_with_the_smallest_store_never_happens() {
    let mut snake = Snake::<6>::new(GREEN, 20, 10);
    snake.grow();
    assert_eq!(snake.len(), 5);
}

#[test]
fn no_collision_while_the_snake_runs_straight() {
    let mut snake = Snake::<16>::new(GREEN, 20, 10);
    assert!(!snake.check_collision());
    for _ in 0..45 {
        snake.make_step();
        assert!(!snake.check_collision());
    }
}

#[test]
fn tight_loop_runs_into_the_body() {
    let mut snake = Snake::<16>::new(GREEN, 20, 10);
    snake.make_step();
    assert!(!snake.check_collision());
    turn_and_step(&mut snake, Direction::Down);
    assert!(!snake.check_collision());
    turn_and_step(&mut snake, Direction::Left);
    assert!(!snake.check_collision());
    turn_and_step(&mut snake, Direction::Up);
    assert_eq!(points(&snake), vec![(10, 5), (10, 6), (11, 6), (11, 5), (10, 5)]);
    assert!(snake.check_collision());
}

#[test]
fn the_cell_that_the_tail_left_is_free() {
    let mut snake = Snake::<16>::new(GREEN, 20, 10);
    turn_and_step(&mut snake, Direction::Down);
    turn_and_step(&mut snake, Direction::Left);
    snake.make_step();
    snake.make_step();
    turn_and_step(&mut snake, Direction::Up);
    assert_eq!(points(&snake), vec![(7, 5), (7, 6), (8, 6), (9, 6), (10, 6)]);
    assert!(!snake.check_collision());
    assert!(!snake.occupies(Point { x: 10, y: 5 }));
}

#[test]
fn occupies_tells_body_cells_from_others() {
    let snake = Snake::<16>::new(GREEN, 20, 10);
    assert!(snake.occupies(Point { x: 10, y: 5 }));
    assert!(snake.occupies(Point { x: 6, y: 5 }));
    assert!(!snake.occupies(Point { x: 5, y: 5 }));
    assert!(!snake.occupies(Point { x: 11, y: 5 }));
    assert!(!snake.occupies(Point { x: 10, y: 4 }));
    // The rest of the store lies on the first cell and is no part of the body.
    assert!(!snake.occupies(Point { x: 0, y: 0 }));
}

#[test]
fn cursor_hands_out_the_body_head_first() {
    let mut snake = Snake::<16>::new(GREEN, 20, 10);
    snake.make_step();
    snake.grow();
    let mut cursor = snake.into_iter();
    let mut seen = Vec::new();
    while let Some(cell) = cursor.next() {
        assert_eq!(cell.color, GREEN);
        seen.push((cell.point.x, cell.point.y));
    }
    assert_eq!(seen, vec![(11, 5), (10, 5), (9, 5), (8, 5), (7, 5), (6, 5)]);
    assert_eq!(cursor.next(), None);
    assert_eq!(cursor.next(), None);
}
