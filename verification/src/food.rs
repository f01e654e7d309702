//! The food: where it lies, what it is worth, and the pulse of its size.

use crate::color::{display_color, hue_distance, opposite_hue, Hsl, HslView, HUE_FULL};
use crate::rng::draw;
use crate::snake::{
    cell_at, lemma_cell_at_on_board, lemma_free_cell_exists, lemma_occupies_is_body_membership,
    Pixel, Point, Snake, SnakeView,
};
use rand::rngs::SmallRng;
use vstd::prelude::*;

verus! {

/// A scale of one, in hundredths.
pub const SCALE_UNIT: i32 = 100;

/// What one tick of the pulse adds to the scale, for a direction of one.
pub const SCALE_STEP: i32 = 5;

/// The scale at which a shrinking food turns to growing.
pub const SCALE_LOW: i32 = 85;

/// The scale at which a growing food turns to shrinking.
pub const SCALE_HIGH: i32 = 115;

/// What every food is worth at least.
pub const BASE_SCORE: u32 = 10;

/// The bonus that a full turn of hue distance would bring.
pub const SCORE_SPAN: u32 = 20;

/// How far the hue of the food keeps from the background and from the snake.
pub const FOOD_CONTRAST: u32 = 30_000;

/// How many colours are tried for the food before the hue across the circle
/// from the background is taken.
pub const FOOD_COLOR_ATTEMPTS: u32 = 50;

/// How many cells are drawn for the food before the board is searched row by
/// row.
pub const PLACEMENT_ATTEMPTS: u32 = 10_000;

/// The pulse of the food's size. Scales are in hundredths.
#[derive(Clone, Copy, PartialEq, Eq, Structural, Debug)]
pub enum FoodAnimationState {
    Shrinking { scale: i32, direction: i32 },
    Growing { scale: i32, direction: i32 },
    Static { scale: i32 },
}

impl FoodAnimationState {
    /// The scale that the food is drawn at.
    pub open spec fn scale(self) -> int {
        match self {
            FoodAnimationState::Shrinking { scale, .. } => scale as int,
            FoodAnimationState::Growing { scale, .. } => scale as int,
            FoodAnimationState::Static { scale } => scale as int,
        }
    }

    /// The scale after one tick, before any turn: a step for each unit of
    /// direction.
    pub open spec fn drifted(self) -> int {
        match self {
            FoodAnimationState::Shrinking { scale, direction } => scale + SCALE_STEP * direction,
            FoodAnimationState::Growing { scale, direction } => scale + SCALE_STEP * direction,
            FoodAnimationState::Static { scale } => scale as int,
        }
    }

    /// The state after one tick. A growing food that reaches `SCALE_HIGH`
    /// turns to shrinking from there, a shrinking one that reaches
    /// `SCALE_LOW` to growing, and the turned state takes its first step in
    /// the same tick. A static food stays as it is.
    pub open spec fn next(self) -> FoodAnimationState {
        match self {
            FoodAnimationState::Shrinking { scale, direction } => {
                if self.drifted() <= SCALE_LOW {
                    FoodAnimationState::Growing {
                        scale: (SCALE_LOW + SCALE_STEP) as i32,
                        direction: 1,
                    }
                } else {
                    FoodAnimationState::Shrinking { scale: self.drifted() as i32, direction }
                }
            },
            FoodAnimationState::Growing { scale, direction } => {
                if self.drifted() >= SCALE_HIGH {
                    FoodAnimationState::Shrinking {
                        scale: (SCALE_HIGH - SCALE_STEP) as i32,
                        direction: -1i32,
                    }
                } else {
                    FoodAnimationState::Growing { scale: self.drifted() as i32, direction }
                }
            },
            FoodAnimationState::Static { .. } => self,
        }
    }

    /// The next scale can be held: a state that does not turn keeps the
    /// drifted scale, which has to fit.
    pub open spec fn can_step(self) -> bool {
        match self {
            FoodAnimationState::Shrinking { .. } => self.drifted() <= i32::MAX,
            FoodAnimationState::Growing { .. } => self.drifted() >= i32::MIN,
            FoodAnimationState::Static { .. } => true,
        }
    }

    /// A state of the pulse as it runs: at rest, or moving by one step a tick
    /// between the two turning points.
    pub open spec fn regular(self) -> bool {
        match self {
            FoodAnimationState::Shrinking { scale, direction } => direction == -1 && SCALE_LOW
                < scale <= SCALE_HIGH,
            FoodAnimationState::Growing { scale, direction } => direction == 1 && SCALE_LOW
                <= scale < SCALE_HIGH,
            FoodAnimationState::Static { .. } => true,
        }
    }

    /// The food at rest, at its own size.
    pub fn new() -> (state: FoodAnimationState)
        ensures
            state == (FoodAnimationState::Static { scale: SCALE_UNIT }),
    {
        FoodAnimationState::Static { scale: SCALE_UNIT }
    }

    /// Moves the pulse one tick on and gives the scale it has reached.
    pub fn update(&mut self) -> (scale: i32)
        requires
            old(self).can_step(),
        ensures
            *final(self) == old(self).next(),
            scale == final(self).scale(),
    {
        match *self {
            FoodAnimationState::Shrinking { scale, direction } => {
                let drifted: i64 = scale as i64 + SCALE_STEP as i64 * direction as i64;
                if drifted <= SCALE_LOW as i64 {
                    *self = FoodAnimationState::Growing {
                        scale: SCALE_LOW + SCALE_STEP,
                        direction: 1,
                    };
                } else {
                    *self = FoodAnimationState::Shrinking { scale: drifted as i32, direction };
                }
            },
            FoodAnimationState::Growing { scale, direction } => {
                let drifted: i64 = scale as i64 + SCALE_STEP as i64 * direction as i64;
                if drifted >= SCALE_HIGH as i64 {
                    *self = FoodAnimationState::Shrinking {
                        scale: SCALE_HIGH - SCALE_STEP,
                        direction: -1,
                    };
                } else {
                    *self = FoodAnimationState::Growing { scale: drifted as i32, direction };
                }
            },
            FoodAnimationState::Static { .. } => {},
        }
        self.current_scale()
    }

    /// The scale that the food is drawn at.
    pub fn current_scale(&self) -> (scale: i32)
        ensures
            scale == self.scale(),
    {
        match *self {
            FoodAnimationState::Shrinking { scale, .. } => scale,
            FoodAnimationState::Growing { scale, .. } => scale,
            FoodAnimationState::Static { scale } => scale,
        }
    }
}

/// A pulse that runs keeps running: the next state is regular again and can
/// take a further step, and while it moves its scale stays between the two
/// turning points.
pub proof fn lemma_pulse_stays_regular(state: FoodAnimationState)
    requires
        state.regular(),
    ensures
        state.can_step(),
        state.next().regular(),
        !(state is Static) ==> SCALE_LOW < state.next().scale() < SCALE_HIGH,
        state is Static ==> state.next() == state,
{
}

/// What a food of hue `hue` is worth on a background of hue `background`:
/// the base, and a share of `SCORE_SPAN` by how far the two hues lie apart.
pub open spec fn score_for(hue: int, background: int) -> int {
    BASE_SCORE + hue_distance(hue, background) * SCORE_SPAN / (HUE_FULL as int)
}

/// The colour is one that a food may have beside `background` and `snake`:
/// bright and vivid, and either far enough in hue from both of them or
/// across the circle from the background.
pub open spec fn food_color_suits(color: HslView, background: HslView, snake: HslView) -> bool {
    &&& 0 <= color.hue < HUE_FULL
    &&& 700 <= color.saturation < 950
    &&& 500 <= color.lightness < 800
    &&& {
        ||| hue_distance(color.hue, background.hue) >= FOOD_CONTRAST && hue_distance(
            color.hue,
            snake.hue,
        ) >= FOOD_CONTRAST
        ||| color.hue == opposite_hue(background.hue)
    }
}

/// The mathematical value of a food.
pub struct FoodView {
    pub width: int,
    pub height: int,
    pub place: Pixel,
    pub color: HslView,
    pub animation: FoodAnimationState,
    pub score: int,
}

impl FoodView {
    /// The food has just been laid out beside `snake`: on a cell of the board
    /// that the snake does not lie on, in a colour that suits, worth what that
    /// colour brings, and at rest.
    pub open spec fn placed_beside(
        self,
        snake: SnakeView,
        background: HslView,
        snake_color: HslView,
    ) -> bool {
        &&& self.place.point.on_board(self.width, self.height)
        &&& !snake.occupies(self.place.point)
        &&& food_color_suits(self.color, background, snake_color)
        &&& self.place.color == display_color(self.color)
        &&& self.score == score_for(self.color.hue, background.hue)
        &&& self.animation == (FoodAnimationState::Static { scale: SCALE_UNIT })
    }
}

/// A food that has just been laid out lies on none of the cells that going
/// through the body of the snake brings up.
pub proof fn lemma_placed_food_is_off_the_body(
    food: FoodView,
    snake: SnakeView,
    background: HslView,
    snake_color: HslView,
)
    requires
        snake.len <= snake.parts.len(),
        food.placed_beside(snake, background, snake_color),
    ensures
        forall|i: int|
            0 <= i < snake.body().len() ==> (#[trigger] snake.body()[i]).point
                != food.place.point,
{
    lemma_occupies_is_body_membership(snake, food.place.point);
}

/// The food of a board: a cell, a colour, a score and a pulse.
pub struct Food {
    size_x: u8,
    size_y: u8,
    place: Pixel,
    color_hsl: Hsl,
    animation_state: FoodAnimationState,
    base_score: u32,
}

impl View for Food {
    type V = FoodView;

    closed spec fn view(&self) -> FoodView {
        FoodView {
            width: self.size_x as int,
            height: self.size_y as int,
            place: self.place,
            color: self.color_hsl@,
            animation: self.animation_state,
            score: self.base_score as int,
        }
    }
}

impl Food {
    /// A food on the first cell of the board, at rest and worth the base
    /// score.
    pub fn new(color_hsl: Hsl, size_x: u8, size_y: u8) -> (food: Food)
        ensures
            food@ == (FoodView {
                width: size_x as int,
                height: size_y as int,
                place: Pixel { point: Point { x: 0, y: 0 }, color: display_color(color_hsl@) },
                color: color_hsl@,
                animation: FoodAnimationState::Static { scale: SCALE_UNIT },
                score: BASE_SCORE as int,
            }),
    {
        Food {
            size_x,
            size_y,
            place: Pixel { point: Point { x: 0, y: 0 }, color: color_hsl.to_rgb() },
            color_hsl,
            animation_state: FoodAnimationState::new(),
            base_score: BASE_SCORE,
        }
    }

    /// The first cell of the board, read row by row, that the snake does not
    /// lie on.
    pub fn first_free_cell<const MAX_SIZE: usize>(
        snake: &Snake<MAX_SIZE>,
        size_x: u8,
        size_y: u8,
    ) -> (p: Point)
        requires
            snake.wf(),
            size_x >= 1,
            size_y >= 1,
            snake@.len < size_x * size_y,
        ensures
            p.on_board(size_x as int, size_y as int),
            !snake@.occupies(p),
            exists|k: int|
                0 <= k < size_x * size_y && p == #[trigger] cell_at(k, size_x as int) && forall|
                    j: int,
                |
                    0 <= j < k ==> snake@.occupies(#[trigger] cell_at(j, size_x as int)),
    {
        assert(size_x * size_y <= u8::MAX * u8::MAX) by (nonlinear_arith)
            requires
                size_x <= u8::MAX,
                size_y <= u8::MAX,
        ;
        let cells: u32 = size_x as u32 * size_y as u32;
        let mut k: u32 = 0;
        while k < cells
            invariant
                snake.wf(),
                size_x >= 1,
                size_y >= 1,
                cells == size_x * size_y,
                k <= cells,
                forall|j: int| 0 <= j < k ==> snake@.occupies(#[trigger] cell_at(j, size_x as int)),
            decreases cells - k,
        {
            proof {
                lemma_cell_at_on_board(k as int, size_x as int, size_y as int);
            }
            let p = Point { x: (k % size_x as u32) as i32, y: (k / size_x as u32) as i32 };
            assert(p == cell_at(k as int, size_x as int));
            if !snake.occupies(p) {
                return p;
            }
            k += 1;
        }
        proof {
            lemma_free_cell_exists(snake@, size_x as int, size_y as int);
            assert(false);
        }
        Point { x: 0, y: 0 }
    }

    /// What a food of colour `color` is worth on `background`.
    pub fn score_of(color: &Hsl, background: &Hsl) -> (score: u32)
        ensures
            score == score_for(color@.hue, background@.hue),
            BASE_SCORE <= score <= BASE_SCORE + SCORE_SPAN / 2,
    {
        BASE_SCORE + color.angle_difference(background) * SCORE_SPAN / HUE_FULL
    }

    /// Whether the hue of `color` keeps `FOOD_CONTRAST` from both others.
    pub fn stands_out(color: &Hsl, background: &Hsl, snake: &Hsl) -> (clear: bool)
        ensures
            clear == (hue_distance(color@.hue, background@.hue) >= FOOD_CONTRAST && hue_distance(
                color@.hue,
                snake@.hue,
            ) >= FOOD_CONTRAST),
    {
        color.angle_difference(background) >= FOOD_CONTRAST && color.angle_difference(snake)
            >= FOOD_CONTRAST
    }

    /// A colour for the food beside `background` and `snake`. Colours are
    /// drawn until `Hsl::settle` takes one, with a budget of
    /// `FOOD_COLOR_ATTEMPTS`: the first that stands out, or else the last one
    /// drawn, turned to the hue across the circle from the background.
    pub fn random_color(rng: &mut SmallRng, background: &Hsl, snake: &Hsl) -> (color: Hsl)
        ensures
            food_color_suits(color@, background@, snake@),
    {
        let mut tried: u32 = 0;
        loop
            invariant
                tried < FOOD_COLOR_ATTEMPTS,
            decreases FOOD_COLOR_ATTEMPTS - tried,
        {
            let candidate = Hsl::random(rng, 700, 950, 500, 800);
            let suits = Food::stands_out(&candidate, background, snake);
            match candidate.settle(suits, background, tried, FOOD_COLOR_ATTEMPTS) {
                Some(color) => {
                    return color;
                },
                None => {
                    tried += 1;
                },
            }
        }
    }

    /// Lays the food out anew. Cells are drawn until one is free of the
    /// snake, at most `PLACEMENT_ATTEMPTS` times; after that the first free
    /// cell of the board is taken. The colour is one of `random_color`, and
    /// the food is worth what `score_of` gives for it.
    pub fn replace<const MAX_SIZE: usize>(
        &mut self,
        snake: &Snake<MAX_SIZE>,
        rng: &mut SmallRng,
        background_hsl: &Hsl,
        snake_hsl: &Hsl,
    )
        requires
            snake.wf(),
            old(self)@.width >= 1,
            old(self)@.height >= 1,
            snake@.len < old(self)@.width * old(self)@.height,
        ensures
            final(self)@.width == old(self)@.width,
            final(self)@.height == old(self)@.height,
            final(self)@.placed_beside(snake@, background_hsl@, snake_hsl@),
    {
        let mut p = Point { x: 0, y: 0 };
        let mut found = false;
        let mut tries: u32 = 0;
        while !found && tries < PLACEMENT_ATTEMPTS
            invariant
                snake.wf(),
                self.size_x >= 1,
                self.size_y >= 1,
                self.size_x == old(self).size_x,
                self.size_y == old(self).size_y,
                tries <= PLACEMENT_ATTEMPTS,
                found ==> p.on_board(self.size_x as int, self.size_y as int) && !snake@.occupies(p),
            decreases PLACEMENT_ATTEMPTS - tries,
        {
            let x = draw(rng, 0, self.size_x as u32);
            let y = draw(rng, 0, self.size_y as u32);
            p = Point { x: x as i32, y: y as i32 };
            found = !snake.occupies(p);
            tries += 1;
        }
        if !found {
            p = Food::first_free_cell(snake, self.size_x, self.size_y);
        }
        let food_hsl = Food::random_color(rng, background_hsl, snake_hsl);
        self.base_score = Food::score_of(&food_hsl, background_hsl);
        self.place = Pixel { point: p, color: food_hsl.to_rgb() };
        self.color_hsl = food_hsl;
        self.animation_state = FoodAnimationState::new();
    }

    /// The cell of the food and the colour it is drawn in.
    pub fn get_pixel(&self) -> (pixel: Pixel)
        ensures
            pixel == self@.place,
    {
        self.place
    }

    /// What the food is worth.
    pub fn get_score(&self) -> (score: u32)
        ensures
            score == self@.score,
    {
        self.base_score
    }

    /// The colour of the food.
    pub fn color(&self) -> (color: Hsl)
        ensures
            color@ == self@.color,
    {
        self.color_hsl
    }

    /// Moves the pulse of the food one tick on and gives the scale reached.
    pub fn update_animation(&mut self) -> (scale: i32)
        requires
            old(self)@.animation.can_step(),
        ensures
            final(self)@ == (FoodView { animation: old(self)@.animation.next(), ..old(self)@ }),
            scale == final(self)@.animation.scale(),
    {
        self.animation_state.update()
    }

    /// The scale that the food is drawn at, in hundredths.
    pub fn current_scale(&self) -> (scale: i32)
        ensures
            scale == self@.animation.scale(),
    {
        self.animation_state.current_scale()
    }
}

} // verus!
