use rand::rngs::SmallRng;
use rand::SeedableRng;
use snake_engine::color::{DisplayColor, Hsl, HUE_FULL, HUE_HALF};
use snake_engine::food::{
    Food, FoodAnimationState, BASE_SCORE, FOOD_COLOR_ATTEMPTS, FOOD_CONTRAST, SCALE_UNIT,
};
use snake_engine::snake::{Direction, Pixel, Point, Snake};

const GREEN: DisplayColor = DisplayColor { r: 3, g: 40, b: 5 };

fn run(state: &mut FoodAnimationState, ticks: usize) -> Vec<i32> {
    let mut scales = Vec::new();
    for _ in 0..ticks {
        scales.push(state.update());
    }
    scales
}

#[test]
fn new_animation_rests_at_full_size() {
    let state = FoodAnimationState::new();
    assert_eq!(state, FoodAnimationState::Static { scale: 100 });
    assert_eq!(state.current_scale(), SCALE_UNIT);
}

#[test]
fn static_animation_is_a_fixed_point() {
    let mut state = FoodAnimationState::Static { scale: 93 };
    assert_eq!(run(&mut state, 5), vec![93, 93, 93, 93, 93]);
    assert_eq!(state, FoodAnimationState::Static { scale: 93 });
}

#[test]
fn growing_turns_to_shrinking_at_the_top() {
    let mut state = FoodAnimationState::Growing { scale: 100, direction: 1 };
    assert_eq!(state.update(), 105);
    assert_eq!(state, FoodAnimationState::Growing { scale: 105, direction: 1 });
    assert_eq!(state.update(), 110);
    assert_eq!(state, FoodAnimationState::Growing { scale: 110, direction: 1 });
    // The step to 115 turns the pulse, and the turned pulse takes its first
    // step down in the same tick.
    assert_eq!(state.update(), 110);
    assert_eq!(state, FoodAnimationState::Shrinking { scale: 110, direction: -1 });
    assert_eq!(state.update(), 105);
}

#[test]
fn shrinking_turns_to_growing_at_the_bottom() {
    let mut state = FoodAnimationState::Shrinking { scale: 95, direction: -1 };
    assert_eq!(state.update(), 90);
    assert_eq!(state, FoodAnimationState::Shrinking { scale: 90, direction: -1 });
    assert_eq!(state.update(), 90);
    assert_eq!(state, FoodAnimationState::Growing { scale: 90, direction: 1 });
    assert_eq!(state.update(), 95);
}

#[test]
fn pulse_runs_between_its_turning_points() {
    let mut state = FoodAnimationState::Growing { scale: 85, direction: 1 };
    let scales = run(&mut state, 12);
    assert_eq!(scales, vec![90, 95, 100, 105, 110, 110, 105, 100, 95, 90, 90, 95]);
    for scale in run(&mut state, 200) {
        assert!(85 < scale && scale < 115);
    }
}

#[test]
fn direction_scales_the_step() {
    let mut state = FoodAnimationState::Growing { scale: 0, direction: 3 };
    assert_eq!(state.update(), 15);
    assert_eq!(state, FoodAnimationState::Growing { scale: 15, direction: 3 });
    let mut back = FoodAnimationState::Growing { scale: 100, direction: -2 };
    assert_eq!(back.update(), 90);
    assert_eq!(back, FoodAnimationState::Growing { scale: 90, direction: -2 });
    let mut up = FoodAnimationState::Shrinking { scale: 100, direction: 4 };
    assert_eq!(up.update(), 120);
    assert_eq!(up, FoodAnimationState::Shrinking { scale: 120, direction: 4 });
    let mut still = FoodAnimationState::Shrinking { scale: 100, direction: 0 };
    assert_eq!(still.update(), 100);
}

#[test]
fn turn_does_not_depend_on_how_far_the_scale_overshoots() {
    let mut state = FoodAnimationState::Growing { scale: 114, direction: 1000 };
    assert_eq!(state.update(), 110);
    assert_eq!(state, FoodAnimationState::Shrinking { scale: 110, direction: -1 });
    let mut low = FoodAnimationState::Shrinking { scale: i32::MIN, direction: -1 };
    assert_eq!(low.update(), 90);
    assert_eq!(low, FoodAnimationState::Growing { scale: 90, direction: 1 });
}

#[test]
fn new_food_lies_on_the_first_cell_and_is_worth_the_base() {
    let color = Hsl::new(0, 1000, 500);
    let food = Food::new(color, 20, 10);
    assert_eq!(
        food.get_pixel(),
        Pixel { point: Point { x: 0, y: 0 }, color: DisplayColor { r: 31, g: 0, b: 0 } }
    );
    assert_eq!(food.get_score(), BASE_SCORE);
    assert_eq!(food.get_score(), 10);
    assert_eq!(food.current_scale(), 100);
    assert_eq!(food.color().hue(), 0);
}

#[test]
fn score_of_grows_with_the_distance_of_the_hues() {
    let background = Hsl::new(100_000, 200, 100);
    assert_eq!(Food::score_of(&Hsl::new(100_000, 800, 600), &background), 10);
    assert_eq!(Food::score_of(&Hsl::new(117_999, 800, 600), &background), 10);
    assert_eq!(Food::score_of(&Hsl::new(118_000, 800, 600), &background), 11);
    assert_eq!(Food::score_of(&Hsl::new(190_000, 800, 600), &background), 15);
    assert_eq!(Food::score_of(&Hsl::new(10_000, 800, 600), &background), 15);
    assert_eq!(Food::score_of(&Hsl::new(279_999, 800, 600), &background), 19);
    assert_eq!(Food::score_of(&Hsl::new(280_000, 800, 600), &background), 20);
    assert_eq!(Food::score_of(&Hsl::new(340_000, 800, 600), &background), 16);
}

#[test]
fn stands_out_asks_for_distance_from_both() {
    let background = Hsl::new(0, 200, 100);
    let snake = Hsl::new(100_000, 700, 500);
    assert!(Food::stands_out(&Hsl::new(30_000, 800, 600), &background, &snake));
    assert!(Food::stands_out(&Hsl::new(50_000, 800, 600), &background, &snake));
    assert!(Food::stands_out(&Hsl::new(330_000, 800, 600), &background, &snake));
    assert!(!Food::stands_out(&Hsl::new(29_999, 800, 600), &background, &snake));
    assert!(!Food::stands_out(&Hsl::new(330_001, 800, 600), &background, &snake));
    assert!(!Food::stands_out(&Hsl::new(70_001, 800, 600), &background, &snake));
    assert!(!Food::stands_out(&Hsl::new(129_999, 800, 600), &background, &snake));
    assert!(Food::stands_out(&Hsl::new(130_000, 800, 600), &background, &snake));
}

#[test]
fn first_free_cell_reads_the_board_row_by_row() {
    let snake = Snake::<8>::new(GREEN, 3, 3);
    // The snake lies on (1, 1) and (0, 1) and then left of the board.
    assert_eq!(Food::first_free_cell(&snake, 3, 3), Point { x: 0, y: 0 });
    let mut column = Snake::<8>::new(GREEN, 1, 6);
    column.set_direction(Direction::Up);
    column.make_step();
    column.make_step();
    column.make_step();
    // Head first: (0, 0), (0, 1), (0, 2), (0, 3), (-1, 3).
    assert_eq!(Food::first_free_cell(&column, 1, 6), Point { x: 0, y: 4 });
    let mut row = Snake::<8>::new(GREEN, 4, 2);
    row.set_direction(Direction::Up);
    row.make_step();
    row.set_direction(Direction::Left);
    row.make_step();
    row.make_step();
    // Head first: (0, 0), (1, 0), (2, 0), (2, 1), (1, 1).
    assert_eq!(Food::first_free_cell(&row, 4, 2), Point { x: 3, y: 0 });
}

fn assert_placed(food: &Food, snake: &Snake<16>, background: &Hsl, snake_color: &Hsl) {
    let pixel = food.get_pixel();
    assert!(0 <= pixel.point.x && pixel.point.x < 6);
    assert!(0 <= pixel.point.y && pixel.point.y < 3);
    assert!(!snake.occupies(pixel.point));
    let mut cursor = snake.into_iter();
    while let Some(cell) = cursor.next() {
        assert_ne!(cell.point, pixel.point);
    }
    let color = food.color();
    assert!(color.hue() < HUE_FULL);
    assert!(700 <= color.saturation() && color.saturation() < 950);
    assert!(500 <= color.lightness() && color.lightness() < 800);
    let clear = color.angle_difference(background) >= FOOD_CONTRAST
        && color.angle_difference(snake_color) >= FOOD_CONTRAST;
    assert!(clear || color.hue() == (background.hue() + HUE_HALF) % HUE_FULL);
    assert_eq!(pixel.color, color.to_rgb());
    assert_eq!(food.get_score(), 10 + color.angle_difference(background) * 20 / 360_000);
    assert_eq!(food.current_scale(), 100);
}

#[test]
fn replaced_food_never_lies_on_the_snake() {
    let background = Hsl::new(200_000, 200, 100);
    let snake_color = Hsl::new(20_000, 700, 500);
    let mut snake = Snake::<16>::new(GREEN, 6, 3);
    for _ in 0..8 {
        snake.grow();
    }
    snake.set_direction(Direction::Down);
    snake.make_step();
    snake.set_direction(Direction::Left);
    for _ in 0..5 {
        snake.make_step();
    }
    let mut food = Food::new(Hsl::new(0, 0, 0), 6, 3);
    for seed in 0..200u64 {
        let mut rng = SmallRng::seed_from_u64(seed);
        food.replace(&snake, &mut rng, &background, &snake_color);
        assert_placed(&food, &snake, &background, &snake_color);
    }
}

#[test]
fn replaced_food_finds_the_last_free_cells() {
    let background = Hsl::new(200_000, 200, 100);
    let snake_color = Hsl::new(20_000, 700, 500);
    let mut snake = Snake::<16>::new(GREEN, 6, 3);
    for _ in 0..10 {
        snake.grow();
    }
    // Wind the snake through the board until it fills all but three cells.
    let path = [
        Direction::Right,
        Direction::Right,
        Direction::Down,
        Direction::Left,
        Direction::Left,
        Direction::Left,
        Direction::Left,
        Direction::Left,
        Direction::Down,
        Direction::Right,
        Direction::Right,
        Direction::Right,
        Direction::Right,
        Direction::Right,
    ];
    for &direction in path.iter() {
        snake.set_direction(direction);
        snake.make_step();
    }
    assert_eq!(snake.len(), 15);
    let mut free = Vec::new();
    for y in 0..3 {
        for x in 0..6 {
            if !snake.occupies(Point { x, y }) {
                free.push((x, y));
            }
        }
    }
    assert_eq!(free.len(), 3);
    let mut food = Food::new(Hsl::new(0, 0, 0), 6, 3);
    let mut rng = SmallRng::seed_from_u64(1);
    for _ in 0..100 {
        food.replace(&snake, &mut rng, &background, &snake_color);
        assert_placed(&food, &snake, &background, &snake_color);
        let at = food.get_pixel().point;
        assert!(free.contains(&(at.x, at.y)));
    }
}

#[test]
fn replace_resets_the_pulse_and_keeps_the_board() {
    let background = Hsl::new(0, 200, 100);
    let snake_color = Hsl::new(120_000, 700, 500);
    let snake = Snake::<16>::new(GREEN, 6, 3);
    let mut food = Food::new(Hsl::new(0, 0, 0), 6, 3);
    let mut rng = SmallRng::seed_from_u64(8);
    food.replace(&snake, &mut rng, &background, &snake_color);
    assert_eq!(food.update_animation(), 100);
    assert_eq!(food.current_scale(), 100);
    let before = food.get_pixel();
    assert_eq!(food.update_animation(), 100);
    assert_eq!(food.get_pixel(), before);
}

#[test]
fn food_between_close_colours_stands_out_or_takes_the_opposite_hue() {
    // Background and snake less than sixty degrees apart.
    let background = Hsl::new(350_000, 200, 100);
    let snake_color = Hsl::new(40_000, 700, 500);
    let snake = Snake::<16>::new(GREEN, 6, 3);
    let mut food = Food::new(Hsl::new(0, 0, 0), 6, 3);
    let mut rng = SmallRng::seed_from_u64(2024);
    for _ in 0..500 {
        food.replace(&snake, &mut rng, &background, &snake_color);
        let color = food.color();
        let clear = color.angle_difference(&background) >= 30_000
            && color.angle_difference(&snake_color) >= 30_000;
        if !clear {
            assert_eq!(color.hue(), 170_000);
            assert_eq!(food.get_score(), 20);
        }
    }
}

#[test]
fn random_color_stands_out_or_takes_the_opposite_hue() {
    let background = Hsl::new(350_000, 200, 100);
    let snake_color = Hsl::new(40_000, 700, 500);
    let mut rng = SmallRng::seed_from_u64(31);
    let mut hues = Vec::new();
    for _ in 0..300 {
        let color = Food::random_color(&mut rng, &background, &snake_color);
        assert!(700 <= color.saturation() && color.saturation() < 950);
        assert!(500 <= color.lightness() && color.lightness() < 800);
        assert!(
            Food::stands_out(&color, &background, &snake_color) || color.hue() == 170_000
        );
        hues.push(color.hue());
    }
    hues.sort();
    hues.dedup();
    assert!(hues.len() > 100);
}

#[test]
fn random_color_takes_the_first_colour_that_stands_out() {
    let background = Hsl::new(350_000, 200, 100);
    let snake_color = Hsl::new(40_000, 700, 500);
    for seed in 0..50u64 {
        let mut a = SmallRng::seed_from_u64(seed);
        let mut b = SmallRng::seed_from_u64(seed);
        let taken = Food::random_color(&mut a, &background, &snake_color);
        let mut expected = None;
        for tried in 0..FOOD_COLOR_ATTEMPTS {
            let candidate = Hsl::random(&mut b, 700, 950, 500, 800);
            let suits = Food::stands_out(&candidate, &background, &snake_color);
            if let Some(color) = candidate.settle(suits, &background, tried, FOOD_COLOR_ATTEMPTS) {
                expected = Some(color);
                break;
            }
        }
        let expected = expected.unwrap();
        assert_eq!(taken.hue(), expected.hue());
        assert_eq!(taken.saturation(), expected.saturation());
        assert_eq!(taken.lightness(), expected.lightness());
    }
}

#[test]
fn fallback_colour_of_the_food_is_the_hue_across_from_the_background() {
    // What `replace` turns to once no colour drawn has stood out.
    let background = Hsl::new(350_000, 200, 100);
    let last_drawn = Hsl::new(355_000, 812, 640);
    let snake_color = Hsl::new(40_000, 700, 500);
    assert!(!Food::stands_out(&last_drawn, &background, &snake_color));
    assert!(last_drawn.settle(false, &background, 48, FOOD_COLOR_ATTEMPTS).is_none());
    let forced = last_drawn.settle(false, &background, 49, FOOD_COLOR_ATTEMPTS).unwrap();
    assert_eq!(forced.hue(), (350_000 + 180_000) % 360_000);
    assert_eq!(forced.hue(), 170_000);
    assert_eq!(forced.saturation(), 812);
    assert_eq!(forced.lightness(), 640);
    assert_eq!(Food::score_of(&forced, &background), 20);
    assert!(FOOD_COLOR_ATTEMPTS == 50);
}
