//! A session of the game: the snake, the food, the colours and the score,
//! moved on tick by tick.

use crate::color::{
    display_color, hue_distance, lemma_opposite_hue_is_half_a_turn_away, DisplayColor, Hsl,
    HslView, HUE_FULL,
};
use crate::food::{lemma_pulse_stays_regular, Food, FoodView, BASE_SCORE, SCORE_SPAN};
use crate::render::{lemma_near_board_reaches, DrawCommand, Label, ScaledDisplay};
use crate::rng::{draw, seeded};
use crate::snake::{
    lemma_step_stays_on_board, Direction, Pixel, Point, Snake, SnakeView, INITIAL_LENGTH,
};
use rand::rngs::SmallRng;
use vstd::prelude::*;

verus! {

/// How far the hue of the snake keeps from the background.
pub const SNAKE_CONTRAST: u32 = 60_000;

/// The fewest ticks between two changes of the background.
pub const INTERVAL_LOW: u32 = 50;

/// The bound that the ticks between two changes of the background stay under.
pub const INTERVAL_HIGH: u32 = 150;

/// How much lighter than its body the head of the snake is drawn.
pub const HEAD_LIFT: i32 = 200;

/// The column at which the line that asks for a first direction begins, in
/// cells.
pub const PROMPT_X: i32 = 30;

/// The row of that line, in cells.
pub const PROMPT_Y: i32 = 60;

/// A colour that the background may have: dark and pale, of any hue.
pub open spec fn background_suits(color: HslView) -> bool {
    &&& 0 <= color.hue < HUE_FULL
    &&& 100 <= color.saturation < 300
    &&& 50 <= color.lightness < 150
}

/// A colour that the snake may have on `background`: vivid, and far from it
/// in hue.
pub open spec fn snake_color_suits(color: HslView, background: HslView) -> bool {
    &&& 0 <= color.hue < HUE_FULL
    &&& 500 <= color.saturation < 900
    &&& 400 <= color.lightness < 700
    &&& hue_distance(color.hue, background.hue) >= SNAKE_CONTRAST
}

/// The mathematical value of a session. The generator is no part of it.
pub struct GameView {
    pub snake: SnakeView,
    pub food: FoodView,
    pub food_age: int,
    pub food_lifetime: int,
    pub size_x: int,
    pub size_y: int,
    pub scale_x: int,
    pub scale_y: int,
    pub score: int,
    pub game_over: bool,
    pub last_tail: Option<Pixel>,
    pub waiting_for_start: bool,
    pub background: HslView,
    pub snake_color: HslView,
    pub last_bg_change: int,
    pub bg_change_interval: int,
}

impl GameView {
    /// The width of the board, in cells.
    pub open spec fn width(self) -> int {
        self.size_x / self.scale_x
    }

    /// The height of the board, in cells.
    pub open spec fn height(self) -> int {
        self.size_y / self.scale_y
    }

    /// The game has begun and is not over.
    pub open spec fn running(self) -> bool {
        !self.game_over && !self.waiting_for_start
    }

    /// The state of a session whose snake has a store of `capacity` cells:
    /// snake and food share the board, which has at least as many cells as
    /// the store, so that the snake never fills it.
    pub open spec fn wf(self, capacity: int) -> bool {
        &&& 1 <= self.scale_x <= self.size_x <= u8::MAX
        &&& 1 <= self.scale_y <= self.size_y <= u8::MAX
        &&& 0 <= self.food_lifetime <= u8::MAX
        &&& self.snake.wf(capacity)
        &&& self.snake.len >= INITIAL_LENGTH
        &&& self.snake.width == self.width()
        &&& self.snake.height == self.height()
        &&& capacity <= self.width() * self.height()
        &&& self.food.width == self.width()
        &&& self.food.height == self.height()
        &&& self.food.place.point.on_board(self.width(), self.height())
        &&& BASE_SCORE <= self.food.score <= BASE_SCORE + SCORE_SPAN
        &&& self.food.animation.regular()
        &&& self.food_age == 0 || 0 < self.food_age < self.food_lifetime
        &&& self.last_tail matches Some(tail) ==> tail.point.near_board(
            self.width(),
            self.height(),
        )
        &&& self.background.in_range()
        &&& self.snake_color.in_range()
        &&& 0 <= self.score <= u32::MAX
        &&& 0 <= self.last_bg_change <= u32::MAX
        &&& INTERVAL_LOW <= self.bg_change_interval < INTERVAL_HIGH
    }

    /// The state of a session that has just been set up on a surface of
    /// `size_x` by `size_y` dots with cells of `scale_x` by `scale_y` dots: a
    /// new snake, waiting for its first direction, on a background and in a
    /// colour that suit, and a food laid out beside it.
    pub open spec fn set_up(
        self,
        size_x: int,
        size_y: int,
        scale_x: int,
        scale_y: int,
        food_lifetime: int,
        capacity: int,
    ) -> bool {
        &&& self.size_x == size_x
        &&& self.size_y == size_y
        &&& self.scale_x == scale_x
        &&& self.scale_y == scale_y
        &&& self.food_lifetime == food_lifetime
        &&& background_suits(self.background)
        &&& snake_color_suits(self.snake_color, self.background)
        &&& self.snake == SnakeView::fresh(
            display_color(self.snake_color),
            self.width(),
            self.height(),
            capacity,
        )
        &&& self.food.width == self.width()
        &&& self.food.height == self.height()
        &&& self.food.placed_beside(self.snake, self.background, self.snake_color)
        &&& self.food_age == 0
        &&& self.score == 0
        &&& !self.game_over
        &&& self.last_tail is None
        &&& self.waiting_for_start
        &&& self.last_bg_change == 0
        &&& INTERVAL_LOW <= self.bg_change_interval < INTERVAL_HIGH
    }

    /// The board as a grid over the surface.
    pub open spec fn grid(self) -> ScaledDisplay {
        ScaledDisplay {
            size_x: self.width() as u8,
            size_y: self.height() as u8,
            scale_x: self.scale_x as u8,
            scale_y: self.scale_y as u8,
        }
    }

    /// The surface is cleared to the background as long as the background
    /// has not changed since the session was set up.
    pub open spec fn clearing(self) -> Seq<DrawCommand> {
        if self.last_bg_change == 0 {
            seq![DrawCommand::Clear { color: display_color(self.background) }]
        } else {
            seq![]
        }
    }

    /// The line that asks for a first direction: black on a light
    /// background, white on a dark one.
    pub open spec fn prompt(self) -> DrawCommand {
        DrawCommand::Text {
            label: Label::StartPrompt,
            origin: Point { x: PROMPT_X, y: PROMPT_Y },
            color: if self.background.lightness > 500 {
                DisplayColor::black()
            } else {
                DisplayColor::white()
            },
            scale_x: self.scale_x as u8,
            scale_y: self.scale_y as u8,
        }
    }

    /// The cell that the tail has left is filled with the background.
    pub open spec fn tail_erasure(self) -> Seq<DrawCommand> {
        match self.last_tail {
            Some(tail) => seq![
                DrawCommand::FillRect {
                    rect: self.grid().block(tail.point),
                    color: display_color(self.background),
                },
            ],
            None => seq![],
        }
    }

    /// The cell of the body at `index`: the head in the colour of the snake
    /// made lighter, the others in their own.
    pub open spec fn body_block(self, index: int) -> DrawCommand {
        DrawCommand::FillRect {
            rect: self.grid().block(self.snake.parts[index].point),
            color: if index == 0 {
                display_color(self.snake_color.lighter(HEAD_LIFT as int))
            } else {
                self.snake.parts[index].color
            },
        }
    }

    /// The food: the square that stands for its cell at the scale of its
    /// pulse, in its own colour. A square without dots is not drawn.
    pub open spec fn food_block(self) -> Seq<DrawCommand> {
        match self.grid().square(self.food.place.point, self.food.animation.scale()) {
            Some(rect) => seq![DrawCommand::FillRect { rect, color: self.food.place.color }],
            None => seq![],
        }
    }

    /// What a drawing of the session consists of. A game that waits shows
    /// the prompt and nothing of the board; a game that is over shows
    /// nothing; a running one has the cell that the tail left filled, then
    /// the body drawn from the head on, then the food.
    pub open spec fn drawn(self) -> Seq<DrawCommand> {
        self.clearing() + if self.waiting_for_start {
            seq![self.prompt()]
        } else if self.game_over {
            seq![]
        } else {
            self.tail_erasure() + Seq::new(self.snake.len, |i: int| self.body_block(i))
                + self.food_block()
        }
    }

    /// The background of the tick `frame`: a new one, with a new interval,
    /// once more ticks than the interval have passed since the last change.
    pub open spec fn background_follows(self, old: GameView, frame: int) -> bool {
        if frame - old.last_bg_change > old.bg_change_interval {
            &&& background_suits(self.background)
            &&& self.last_bg_change == frame
            &&& INTERVAL_LOW <= self.bg_change_interval < INTERVAL_HIGH
        } else {
            &&& self.background == old.background
            &&& self.last_bg_change == old.last_bg_change
            &&& self.bg_change_interval == old.bg_change_interval
        }
    }

    /// Snake, food and score of the tick after `old`. The snake takes a step.
    /// If it collides, the game is over and nothing else changes. If its head
    /// has reached the food, it grows, the food counts for the score and is
    /// laid out anew. Else the food ages, is laid out anew once it has lain
    /// for its lifetime, and pulses on where it stays.
    pub open spec fn play_follows(self, old: GameView) -> bool {
        let moved = old.snake.stepped();
        if moved.collides() {
            &&& self.game_over
            &&& self.snake == moved
            &&& self.score == old.score
            &&& self.food == old.food
            &&& self.food_age == old.food_age
        } else if moved.head() == old.food.place.point {
            &&& !self.game_over
            &&& self.snake == moved.grown()
            &&& self.score == old.score + old.food.score
            &&& self.food_age == 0
            &&& self.food.width == old.food.width
            &&& self.food.height == old.food.height
            &&& self.food.placed_beside(self.snake, self.background, self.snake_color)
        } else if old.food_age + 1 >= old.food_lifetime {
            &&& !self.game_over
            &&& self.snake == moved
            &&& self.score == old.score
            &&& self.food_age == 0
            &&& self.food.width == old.food.width
            &&& self.food.height == old.food.height
            &&& self.food.placed_beside(self.snake, self.background, self.snake_color)
        } else {
            &&& !self.game_over
            &&& self.snake == moved
            &&& self.score == old.score
            &&& self.food_age == old.food_age + 1
            &&& self.food == (FoodView { animation: old.food.animation.next(), ..old.food })
        }
    }

    /// The state one tick after `old`, the tick being the one numbered
    /// `frame`. A game that waits or is over stays as it is.
    pub open spec fn ticked_from(self, old: GameView, frame: int) -> bool {
        if !old.running() {
            self == old
        } else {
            &&& self.size_x == old.size_x
            &&& self.size_y == old.size_y
            &&& self.scale_x == old.scale_x
            &&& self.scale_y == old.scale_y
            &&& self.food_lifetime == old.food_lifetime
            &&& self.snake_color == old.snake_color
            &&& !self.waiting_for_start
            &&& self.background_follows(old, frame)
            &&& self.last_tail == Some(old.snake.parts[old.snake.len - 1])
            &&& self.play_follows(old)
        }
    }
}

/// A session of the game. `MAX_SNAKE_SIZE` is the store of the snake: the
/// body can grow to one cell less.
pub struct SnakeGame<const MAX_SNAKE_SIZE: usize> {
    snake: Snake<MAX_SNAKE_SIZE>,
    food: Food,
    rng: SmallRng,
    food_age: u8,
    food_lifetime: u8,
    size_x: u8,
    size_y: u8,
    scale_x: u8,
    scale_y: u8,
    score: u32,
    game_over: bool,
    last_tail: Option<Pixel>,
    waiting_for_start: bool,
    background_hsl: Hsl,
    snake_hsl: Hsl,
    last_bg_change: u32,
    bg_change_interval: u32,
}

impl<const MAX_SIZE: usize> View for SnakeGame<MAX_SIZE> {
    type V = GameView;

    closed spec fn view(&self) -> GameView {
        GameView {
            snake: self.snake@,
            food: self.food@,
            food_age: self.food_age as int,
            food_lifetime: self.food_lifetime as int,
            size_x: self.size_x as int,
            size_y: self.size_y as int,
            scale_x: self.scale_x as int,
            scale_y: self.scale_y as int,
            score: self.score as int,
            game_over: self.game_over,
            last_tail: self.last_tail,
            waiting_for_start: self.waiting_for_start,
            background: self.background_hsl@,
            snake_color: self.snake_hsl@,
            last_bg_change: self.last_bg_change as int,
            bg_change_interval: self.bg_change_interval as int,
        }
    }
}

/// A session that has just been set up is well formed, and its snake is the
/// new one: `INITIAL_LENGTH` cells long, head in the middle of the board,
/// facing right.
pub proof fn lemma_set_up_is_well_formed(
    g: GameView,
    size_x: int,
    size_y: int,
    scale_x: int,
    scale_y: int,
    food_lifetime: int,
    capacity: int,
)
    requires
        1 <= scale_x <= size_x <= u8::MAX,
        1 <= scale_y <= size_y <= u8::MAX,
        0 <= food_lifetime <= u8::MAX,
        INITIAL_LENGTH < capacity <= (size_x / scale_x) * (size_y / scale_y),
        g.set_up(size_x, size_y, scale_x, scale_y, food_lifetime, capacity),
    ensures
        g.wf(capacity),
        g.snake.len == INITIAL_LENGTH,
        g.snake.head() == (Point { x: (g.width() / 2) as i32, y: (g.height() / 2) as i32 }),
        g.snake.facing == Direction::Right,
        g.waiting_for_start,
{
    let w = size_x / scale_x;
    let h = size_y / scale_y;
    assert(1 <= w <= u8::MAX && 1 <= h <= u8::MAX) by (nonlinear_arith)
        requires
            1 <= scale_x <= size_x <= u8::MAX,
            1 <= scale_y <= size_y <= u8::MAX,
            w == size_x / scale_x,
            h == size_y / scale_y,
    ;
    assert(hue_distance(g.food.color.hue, g.background.hue) <= HUE_FULL / 2);
}

impl<const MAX_SIZE: usize> SnakeGame<MAX_SIZE> {
    /// The session is one that `new` and the methods below can have made.
    pub open spec fn wf(&self) -> bool {
        self@.wf(MAX_SIZE as int)
    }

    /// A colour for the background.
    fn random_background(rng: &mut SmallRng) -> (color: Hsl)
        ensures
            background_suits(color@),
    {
        Hsl::random(rng, 100, 300, 50, 150)
    }

    /// A colour for the snake on `background`.
    fn random_snake_color(rng: &mut SmallRng, background: &Hsl) -> (color: Hsl)
        ensures
            snake_color_suits(color@, background@),
    {
        proof {
            use_type_invariant(background);
            lemma_opposite_hue_is_half_a_turn_away(background@.hue);
        }
        Hsl::random_with_min_difference(rng, background, SNAKE_CONTRAST)
    }

    /// A session on a surface of `size_x` by `size_y` dots, each cell of the
    /// board `scale_x` by `scale_y` dots, with every colour and place drawn
    /// from a generator seeded with `seed`. A food that has lain for
    /// `food_lifetime` ticks is laid out anew.
    pub fn new(
        size_x: u8,
        size_y: u8,
        scale_x: u8,
        scale_y: u8,
        seed: u64,
        food_lifetime: u8,
    ) -> (game: Self)
        requires
            1 <= scale_x <= size_x,
            1 <= scale_y <= size_y,
            INITIAL_LENGTH < MAX_SIZE <= (size_x / scale_x) * (size_y / scale_y),
        ensures
            game.wf(),
            game@.set_up(
                size_x as int,
                size_y as int,
                scale_x as int,
                scale_y as int,
                food_lifetime as int,
                MAX_SIZE as int,
            ),
            game@.snake.len == INITIAL_LENGTH,
            game@.snake.head() == (Point {
                x: (game@.width() / 2) as i32,
                y: (game@.height() / 2) as i32,
            }),
            game@.snake.facing == Direction::Right,
            game@.waiting_for_start,
    {
        let mut rng = seeded(seed);
        let background_hsl = Self::random_background(&mut rng);
        let snake_hsl = Self::random_snake_color(&mut rng, &background_hsl);
        let snake_color = snake_hsl.to_rgb();
        let width: u8 = size_x / scale_x;
        let height: u8 = size_y / scale_y;
        assert(width >= 1 && height >= 1) by (nonlinear_arith)
            requires
                1 <= scale_x <= size_x,
                1 <= scale_y <= size_y,
                width == size_x / scale_x,
                height == size_y / scale_y,
        ;
        let snake = Snake::<MAX_SIZE>::new(snake_color, width, height);
        let mut food = Food::new(Hsl::new(0, 0, 0), width, height);
        let bg_change_interval = draw(&mut rng, INTERVAL_LOW, INTERVAL_HIGH);
        food.replace(&snake, &mut rng, &background_hsl, &snake_hsl);
        let game = SnakeGame {
            snake,
            food,
            rng,
            food_age: 0,
            food_lifetime,
            size_x,
            size_y,
            scale_x,
            scale_y,
            score: 0,
            game_over: false,
            last_tail: None,
            waiting_for_start: true,
            background_hsl,
            snake_hsl,
            last_bg_change: 0,
            bg_change_interval,
        };
        proof {
            lemma_set_up_is_well_formed(
                game@,
                size_x as int,
                size_y as int,
                scale_x as int,
                scale_y as int,
                food_lifetime as int,
                MAX_SIZE as int,
            );
        }
        game
    }

    /// Turns the snake as `Snake::set_direction` does. The first call, with
    /// whatever direction, starts a game that waits.
    pub fn set_direction(&mut self, direction: Direction)
        requires
            old(self).wf(),
        ensures
            final(self).wf(),
            final(self)@ == (GameView {
                waiting_for_start: false,
                snake: SnakeView {
                    facing: old(self)@.snake.facing.turned(direction),
                    ..old(self)@.snake
                },
                ..old(self)@
            }),
    {
        self.waiting_for_start = false;
        self.snake.set_direction(direction);
    }

    /// Moves a running game one tick on; `frame_count` numbers the tick.
    pub fn update(&mut self, frame_count: u32)
        requires
            old(self).wf(),
            old(self)@.running() ==> frame_count >= old(self)@.last_bg_change,
            old(self)@.running() ==> old(self)@.score + old(self)@.food.score <= u32::MAX,
        ensures
            final(self).wf(),
            final(self)@.ticked_from(old(self)@, frame_count as int),
    {
        if self.game_over || self.waiting_for_start {
            return ;
        }
        if frame_count - self.last_bg_change > self.bg_change_interval {
            self.background_hsl = Self::random_background(&mut self.rng);
            self.last_bg_change = frame_count;
            self.bg_change_interval = draw(&mut self.rng, INTERVAL_LOW, INTERVAL_HIGH);
        }
        self.last_tail = Some(self.snake.tail());
        proof {
            lemma_step_stays_on_board(self.snake@, MAX_SIZE as int);
            lemma_pulse_stays_regular(self.food@.animation);
        }
        self.snake.make_step();
        if self.snake.check_collision() {
            self.game_over = true;
            return ;
        }
        let head = self.snake.head().point;
        let food_pos = self.food.get_pixel().point;
        if head == food_pos {
            let food_score = self.food.get_score();
            self.snake.grow();
            self.score += food_score;
            self.food.replace(&self.snake, &mut self.rng, &self.background_hsl, &self.snake_hsl);
            self.food_age = 0;
        } else {
            if self.food_age + 1 >= self.food_lifetime {
                self.food.replace(
                    &self.snake,
                    &mut self.rng,
                    &self.background_hsl,
                    &self.snake_hsl,
                );
                self.food_age = 0;
            } else {
                self.food_age += 1;
            }
        }
        self.food.update_animation();
        proof {
            use_type_invariant(&self.background_hsl);
        }
    }

    /// Sets the session up anew, as `new` does, on the same surface and with
    /// the same lifetime of the food, from a generator seeded with `seed`.
    pub fn reset(&mut self, seed: u64)
        requires
            old(self).wf(),
        ensures
            final(self).wf(),
            final(self)@.set_up(
                old(self)@.size_x,
                old(self)@.size_y,
                old(self)@.scale_x,
                old(self)@.scale_y,
                old(self)@.food_lifetime,
                MAX_SIZE as int,
            ),
            final(self)@.snake.len == INITIAL_LENGTH,
            final(self)@.snake.head() == (Point {
                x: (final(self)@.width() / 2) as i32,
                y: (final(self)@.height() / 2) as i32,
            }),
            final(self)@.snake.facing == Direction::Right,
            final(self)@.waiting_for_start,
    {
        self.rng = seeded(seed);
        self.background_hsl = Self::random_background(&mut self.rng);
        self.snake_hsl = Self::random_snake_color(&mut self.rng, &self.background_hsl);
        let snake_color = self.snake_hsl.to_rgb();
        self.snake = Snake::<MAX_SIZE>::new(
            snake_color,
            self.size_x / self.scale_x,
            self.size_y / self.scale_y,
        );
        self.food.replace(&self.snake, &mut self.rng, &self.background_hsl, &self.snake_hsl);
        self.food_age = 0;
        self.score = 0;
        self.game_over = false;
        self.last_tail = None;
        self.waiting_for_start = true;
        self.last_bg_change = 0;
        self.bg_change_interval = draw(&mut self.rng, INTERVAL_LOW, INTERVAL_HIGH);
        proof {
            lemma_set_up_is_well_formed(
                self@,
                old(self)@.size_x,
                old(self)@.size_y,
                old(self)@.scale_x,
                old(self)@.scale_y,
                old(self)@.food_lifetime,
                MAX_SIZE as int,
            );
        }
    }

    /// The board as a grid over the surface.
    fn grid(&self) -> (grid: ScaledDisplay)
        requires
            self.wf(),
        ensures
            grid == self@.grid(),
    {
        ScaledDisplay {
            size_x: self.size_x / self.scale_x,
            size_y: self.size_y / self.scale_y,
            scale_x: self.scale_x,
            scale_y: self.scale_y,
        }
    }

    /// Adds the blocks of the body to `commands`, from the head on.
    fn draw_body(&self, commands: &mut Vec<DrawCommand>)
        requires
            self.wf(),
        ensures
            final(commands)@ == old(commands)@ + Seq::new(
                self@.snake.len,
                |i: int| self@.body_block(i),
            ),
    {
        let grid = self.grid();
        let head_color = self.snake_hsl.lighter(HEAD_LIFT).to_rgb();
        let len = self.snake.len();
        let mut i: usize = 0;
        assert(commands@ =~= old(commands)@ + Seq::new(0, |j: int| self@.body_block(j)));
        while i < len
            invariant
                self.snake.wf(),
                self@.snake.width <= u8::MAX,
                self@.snake.height <= u8::MAX,
                len == self@.snake.len,
                0 <= i <= len,
                grid == self@.grid(),
                head_color == display_color(self@.snake_color.lighter(HEAD_LIFT as int)),
                commands@ == old(commands)@ + Seq::new(i as nat, |j: int| self@.body_block(j)),
            decreases len - i,
        {
            let part = self.snake.part(i);
            proof {
                lemma_near_board_reaches(grid, part.point, self@.snake.width, self@.snake.height);
            }
            let color = if i == 0 { head_color } else { part.color };
            commands.push(DrawCommand::FillRect { rect: grid.cell_rect(part.point), color });
            i += 1;
            assert(commands@ =~= old(commands)@ + Seq::new(
                i as nat,
                |j: int| self@.body_block(j),
            ));
        }
    }

    /// Adds the square of the food to `commands`, if it has any dots.
    fn draw_food(&self, commands: &mut Vec<DrawCommand>)
        requires
            self.wf(),
        ensures
            final(commands)@ == old(commands)@ + self@.food_block(),
    {
        let food_pixel = self.food.get_pixel();
        if let Some(rect) = self.grid().scaled_square(
            food_pixel.point,
            self.food.current_scale(),
        ) {
            commands.push(DrawCommand::FillRect { rect, color: food_pixel.color });
        }
        assert(commands@ =~= old(commands)@ + self@.food_block());
    }

    /// The commands that draw the session as it stands.
    pub fn draw(&mut self) -> (commands: Vec<DrawCommand>)
        requires
            old(self).wf(),
        ensures
            final(self)@ == old(self)@,
            final(self).wf(),
            commands@ == old(self)@.drawn(),
    {
        let mut commands: Vec<DrawCommand> = Vec::new();
        if self.last_bg_change == 0 {
            commands.push(DrawCommand::Clear { color: self.background_hsl.to_rgb() });
        }
        assert(commands@ =~= self@.clearing());
        if self.waiting_for_start {
            let text_color = if self.background_hsl.lightness() > 500 {
                DisplayColor::black()
            } else {
                DisplayColor::white()
            };
            commands.push(
                DrawCommand::Text {
                    label: Label::StartPrompt,
                    origin: Point { x: PROMPT_X, y: PROMPT_Y },
                    color: text_color,
                    scale_x: self.scale_x,
                    scale_y: self.scale_y,
                },
            );
            assert(commands@ =~= self@.drawn());
            return commands;
        }
        if self.game_over {
            assert(commands@ =~= self@.drawn());
            return commands;
        }
        if let Some(old_tail) = self.last_tail {
            let grid = self.grid();
            proof {
                lemma_near_board_reaches(grid, old_tail.point, self@.width(), self@.height());
            }
            commands.push(
                DrawCommand::FillRect {
                    rect: grid.cell_rect(old_tail.point),
                    color: self.background_hsl.to_rgb(),
                },
            );
        }
        assert(commands@ =~= self@.clearing() + self@.tail_erasure());
        self.draw_body(&mut commands);
        self.draw_food(&mut commands);
        assert(commands@ =~= self@.drawn());
        commands
    }

    /// The snake of the session.
    pub fn snake(&self) -> (snake: &Snake<MAX_SIZE>)
        requires
            self.wf(),
        ensures
            snake.wf(),
            snake@ == self@.snake,
    {
        &self.snake
    }

    /// The food of the session.
    pub fn food(&self) -> (food: &Food)
        ensures
            food@ == self@.food,
    {
        &self.food
    }

    /// The colour of the background.
    pub fn background(&self) -> (color: Hsl)
        ensures
            color@ == self@.background,
    {
        self.background_hsl
    }

    /// The colour of the snake.
    pub fn snake_color(&self) -> (color: Hsl)
        ensures
            color@ == self@.snake_color,
    {
        self.snake_hsl
    }

    /// The number of the tick at which the background last changed; 0 as
    /// long as it has not.
    pub fn last_background_change(&self) -> (frame: u32)
        ensures
            frame == self@.last_bg_change,
    {
        self.last_bg_change
    }

    /// Whether the snake has run into itself.
    pub fn is_game_over(&self) -> (over: bool)
        ensures
            over == self@.game_over,
    {
        self.game_over
    }

    /// Whether the game still waits for its first direction.
    pub fn is_waiting_for_start(&self) -> (waiting: bool)
        ensures
            waiting == self@.waiting_for_start,
    {
        self.waiting_for_start
    }

    /// The points scored so far.
    pub fn get_score(&self) -> (score: u32)
        ensures
            score == self@.score,
    {
        self.score
    }
}

} // verus!
