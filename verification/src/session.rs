//! The pacing of a game: ticks are let through at a fixed interval of the
//! host's clock, keys steer, pause, restart and quit, and the score counts
//! towards a level.

use crate::color::DisplayColor;
use crate::game::{GameView, SnakeGame};
use crate::render::{DrawCommand, Label, Rect};
use crate::snake::{Direction, Point, SnakeView};
use vstd::prelude::*;

verus! {

/// The store of the snake of a paced game.
pub const MAX_SNAKE: usize = 200;

/// Width and height of the surface of a paced game, in dots.
pub const SURFACE: u8 = 128;

/// Width and height of a cell of a paced game, in dots.
pub const CELL: u8 = 2;

/// After how many ticks the food of a paced game is laid out anew.
pub const FOOD_LIFETIME: u8 = 100;

/// The shortest interval between two ticks, in milliseconds.
pub const SHORTEST_INTERVAL: u32 = 50;

/// How many points make a level.
pub const LEVEL_SCORE: u32 = 100;

/// The height of the strip at the top of the surface that shows the scores.
pub const STATUS_HEIGHT: u32 = 20;

/// The keys that turn the snake upwards, as the bytes that the line brings:
/// `w`, `W`, `i` and `I`.
pub const KEY_W: u8 = 119;
pub const KEY_W_UPPER: u8 = 87;
pub const KEY_I: u8 = 105;
pub const KEY_I_UPPER: u8 = 73;

/// The keys that turn the snake downwards: `s`, `S`, `k` and `K`.
pub const KEY_S: u8 = 115;
pub const KEY_S_UPPER: u8 = 83;
pub const KEY_K: u8 = 107;
pub const KEY_K_UPPER: u8 = 75;

/// The keys that turn the snake to the left: `a`, `A`, `j` and `J`.
pub const KEY_A: u8 = 97;
pub const KEY_A_UPPER: u8 = 65;
pub const KEY_J: u8 = 106;
pub const KEY_J_UPPER: u8 = 74;

/// The keys that turn the snake to the right: `d`, `D`, `l` and `L`.
pub const KEY_D: u8 = 100;
pub const KEY_D_UPPER: u8 = 68;
pub const KEY_L: u8 = 108;
pub const KEY_L_UPPER: u8 = 76;

/// The space bar, which pauses the game.
pub const KEY_SPACE: u8 = 32;

/// The keys that start a game that is over again: `r` and `R`.
pub const KEY_R: u8 = 114;
pub const KEY_R_UPPER: u8 = 82;

/// The keys that ask to quit: `q` and `Q`.
pub const KEY_Q: u8 = 113;
pub const KEY_Q_UPPER: u8 = 81;

/// The level that a score stands for.
pub open spec fn level_of(score: int) -> int {
    score / (LEVEL_SCORE as int) + 1
}

/// The interval between two ticks that a speed stands for, in milliseconds:
/// speeds run from 1, the slowest, to 10, the fastest.
pub open spec fn interval_of(speed: int) -> Option<int> {
    if 1 <= speed <= 10 {
        Some(250 - speed * 20)
    } else {
        None
    }
}

/// The direction that a key asks for, if it is one of the steering keys.
pub open spec fn steering(key: u8) -> Option<Direction> {
    if key == KEY_W || key == KEY_W_UPPER || key == KEY_I || key == KEY_I_UPPER {
        Some(Direction::Up)
    } else if key == KEY_S || key == KEY_S_UPPER || key == KEY_K || key == KEY_K_UPPER {
        Some(Direction::Down)
    } else if key == KEY_A || key == KEY_A_UPPER || key == KEY_J || key == KEY_J_UPPER {
        Some(Direction::Left)
    } else if key == KEY_D || key == KEY_D_UPPER || key == KEY_L || key == KEY_L_UPPER {
        Some(Direction::Right)
    } else {
        None
    }
}

/// The mathematical value of a paced game.
pub struct SessionView {
    pub game: GameView,
    pub level: int,
    pub is_paused: bool,
    pub high_score: int,
    pub current_seed: u64,
    pub update_interval: int,
    pub last_update_time: int,
    pub frame_counter: int,
}

impl SessionView {
    /// The state of a paced game: a well-formed game on the usual board,
    /// whose background last changed at a tick that has been counted.
    pub open spec fn wf(self) -> bool {
        &&& self.game.wf(MAX_SNAKE as int)
        &&& self.game.size_x == SURFACE
        &&& self.game.size_y == SURFACE
        &&& self.game.scale_x == CELL
        &&& self.game.scale_y == CELL
        &&& self.game.food_lifetime == FOOD_LIFETIME
        &&& self.game.last_bg_change <= self.frame_counter <= u32::MAX
        &&& 1 <= self.level <= u32::MAX
        &&& 0 <= self.high_score <= u32::MAX
        &&& SHORTEST_INTERVAL <= self.update_interval <= u32::MAX
        &&& 0 <= self.last_update_time <= u64::MAX
    }

    /// A tick is due at `time`: the game is neither paused nor waiting, and
    /// the interval has passed since the last tick.
    pub open spec fn due(self, time: int) -> bool {
        &&& !self.is_paused
        &&& !self.game.waiting_for_start
        &&& time >= self.last_update_time + self.update_interval
    }

    /// The state after the clock has been read as `time`, `old` being the
    /// state before. Where no tick is due, nothing changes. Where one is, it
    /// is counted and the game moves on under its number; the level rises to
    /// that of the score and never falls.
    pub open spec fn paced_from(self, old: SessionView, time: int) -> bool {
        if !old.due(time) {
            self == old
        } else {
            &&& self.is_paused == old.is_paused
            &&& self.high_score == old.high_score
            &&& self.current_seed == old.current_seed
            &&& self.update_interval == old.update_interval
            &&& self.last_update_time == time
            &&& self.frame_counter == old.frame_counter + 1
            &&& self.game.ticked_from(old.game, old.frame_counter + 1)
            &&& self.level == if level_of(self.game.score) > old.level {
                level_of(self.game.score)
            } else {
                old.level
            }
        }
    }

    /// The state after the key `key`, `old` being the state before. A
    /// steering key turns the snake and starts a game that waits. The space
    /// bar pauses a game that has begun, or lets it go on. `r` sets a game
    /// that is over up anew from the same seed, after the score has counted
    /// for the high score. `q` counts the score for the high score. Any other
    /// key starts a game that waits.
    pub open spec fn keyed_from(self, old: SessionView, key: u8) -> bool {
        if let Some(direction) = steering(key) {
            self == (SessionView {
                game: GameView {
                    waiting_for_start: false,
                    snake: SnakeView {
                        facing: old.game.snake.facing.turned(direction),
                        ..old.game.snake
                    },
                    ..old.game
                },
                ..old
            })
        } else if key == KEY_SPACE {
            self == (SessionView {
                is_paused: if old.game.waiting_for_start {
                    old.is_paused
                } else {
                    !old.is_paused
                },
                ..old
            })
        } else if key == KEY_R || key == KEY_R_UPPER {
            if old.game.game_over {
                &&& self.high_score == if old.game.score > old.high_score {
                    old.game.score
                } else {
                    old.high_score
                }
                &&& self.game.set_up(
                    SURFACE as int,
                    SURFACE as int,
                    CELL as int,
                    CELL as int,
                    FOOD_LIFETIME as int,
                    MAX_SNAKE as int,
                )
                &&& self.level == 1
                &&& !self.is_paused
                &&& self.frame_counter == 0
                &&& self.current_seed == old.current_seed
                &&& self.update_interval == old.update_interval
                &&& self.last_update_time == old.last_update_time
            } else {
                self == old
            }
        } else if key == KEY_Q || key == KEY_Q_UPPER {
            self == (SessionView {
                high_score: if old.game.score > old.high_score {
                    old.game.score
                } else {
                    old.high_score
                },
                ..old
            })
        } else {
            self == (SessionView {
                game: GameView { waiting_for_start: false, ..old.game },
                ..old
            })
        }
    }

    /// A label of the strip of scores, in white.
    pub open spec fn status_text(label: Label, x: int, y: int) -> DrawCommand {
        DrawCommand::Text {
            label,
            origin: Point { x: x as i32, y: y as i32 },
            color: DisplayColor::white(),
            scale_x: 1,
            scale_y: 1,
        }
    }

    /// A black panel.
    pub open spec fn panel(x: int, y: int, width: int, height: int) -> DrawCommand {
        DrawCommand::FillRect {
            rect: Rect { x: x as i32, y: y as i32, width: width as u32, height: height as u32 },
            color: DisplayColor::black(),
        }
    }

    /// The strip at the top: score, level and high score on black.
    pub open spec fn status_strip(self) -> Seq<DrawCommand> {
        seq![
            Self::panel(0, 0, SURFACE as int, STATUS_HEIGHT as int),
            Self::status_text(Label::Score(self.game.score as u32), 2, 8),
            Self::status_text(Label::Level(self.level as u32), 50, 8),
            Self::status_text(Label::HighScore(self.high_score as u32), 98, 8),
        ]
    }

    /// What lies over the board: the prompt while the game waits, a panel
    /// that says so while it is paused or once it is over.
    pub open spec fn overlay(self) -> Seq<DrawCommand> {
        if self.game.waiting_for_start {
            seq![Self::status_text(Label::StartPrompt, 30, 60)]
        } else if self.is_paused {
            seq![Self::panel(30, 50, 70, 30), Self::status_text(Label::Paused, 40, 60)]
        } else if self.game.game_over {
            seq![
                Self::panel(10, 50, 110, 50),
                Self::status_text(Label::GameOver, 30, 60),
                Self::status_text(Label::RestartHint, 10, 80),
            ]
        } else {
            seq![]
        }
    }

    /// What a drawing consists of: the game, the strip of scores, and what
    /// lies over the board.
    pub open spec fn drawn(self) -> Seq<DrawCommand> {
        self.game.drawn() + self.status_strip() + self.overlay()
    }
}

/// The interval between two ticks that `speed` stands for, where `speed` is
/// one of the ten speeds.
pub fn speed_interval(speed: u8) -> (interval: Option<u32>)
    ensures
        interval matches Some(ms) ==> interval_of(speed as int) == Some(ms as int),
        interval is None ==> interval_of(speed as int) is None,
{
    if speed >= 1 && speed <= 10 {
        Some(250 - speed as u32 * 20)
    } else {
        None
    }
}

/// The level that `score` stands for.
pub fn score_level(score: u32) -> (level: u32)
    ensures
        level == level_of(score as int),
{
    score / LEVEL_SCORE + 1
}

/// A game and its pacing: level, pause, high score and the clock of the
/// ticks.
pub struct SnakeGameState {
    game: SnakeGame<200>,
    level: u32,
    is_paused: bool,
    high_score: u32,
    current_seed: u64,
    update_interval: u32,
    last_update_time: u64,
    frame_counter: u32,
}

impl View for SnakeGameState {
    type V = SessionView;

    closed spec fn view(&self) -> SessionView {
        SessionView {
            game: self.game@,
            level: self.level as int,
            is_paused: self.is_paused,
            high_score: self.high_score as int,
            current_seed: self.current_seed,
            update_interval: self.update_interval as int,
            last_update_time: self.last_update_time as int,
            frame_counter: self.frame_counter as int,
        }
    }
}

impl SnakeGameState {
    /// The game is one that `new` and the methods below can have made.
    pub open spec fn wf(&self) -> bool {
        self@.wf()
    }

    /// A paced game from `seed` that ticks every `speed` milliseconds, and
    /// no faster than every `SHORTEST_INTERVAL`.
    pub fn new(seed: u64, speed: u32) -> (state: SnakeGameState)
        ensures
            state.wf(),
            state@.game.set_up(
                SURFACE as int,
                SURFACE as int,
                CELL as int,
                CELL as int,
                FOOD_LIFETIME as int,
                MAX_SNAKE as int,
            ),
            state@.level == 1,
            !state@.is_paused,
            state@.high_score == 0,
            state@.current_seed == seed,
            state@.update_interval == if speed > SHORTEST_INTERVAL {
                speed
            } else {
                SHORTEST_INTERVAL
            },
            state@.last_update_time == 0,
            state@.frame_counter == 0,
    {
        let game = SnakeGame::<200>::new(SURFACE, SURFACE, CELL, CELL, seed, FOOD_LIFETIME);
        SnakeGameState {
            game,
            level: 1,
            is_paused: false,
            high_score: 0,
            current_seed: seed,
            update_interval: if speed > SHORTEST_INTERVAL { speed } else { SHORTEST_INTERVAL },
            last_update_time: 0,
            frame_counter: 0,
        }
    }

    /// Reads the clock as `current_time`, in milliseconds, and lets a tick
    /// through if one is due.
    pub fn update(&mut self, current_time: u64)
        requires
            old(self).wf(),
            old(self)@.due(current_time as int) ==> old(self)@.frame_counter < u32::MAX,
            old(self)@.due(current_time as int) && old(self)@.game.running() ==> old(
                self,
            )@.game.score + old(self)@.game.food.score <= u32::MAX,
        ensures
            final(self).wf(),
            final(self)@.paced_from(old(self)@, current_time as int),
    {
        if self.is_paused || self.game.is_waiting_for_start() {
            return ;
        }
        if current_time < self.last_update_time || current_time - self.last_update_time
            < self.update_interval as u64 {
            return ;
        }
        self.last_update_time = current_time;
        self.frame_counter += 1;
        self.game.update(self.frame_counter);
        let new_level = score_level(self.game.get_score());
        if new_level > self.level {
            self.level = new_level;
        }
    }

    /// Takes a key. The answer says whether the key asks to quit.
    pub fn handle_input(&mut self, byte: u8) -> (quit: bool)
        requires
            old(self).wf(),
        ensures
            final(self).wf(),
            quit == (byte == KEY_Q || byte == KEY_Q_UPPER),
            final(self)@.keyed_from(old(self)@, byte),
    {
        if byte == KEY_W || byte == KEY_W_UPPER || byte == KEY_I || byte == KEY_I_UPPER {
            self.game.set_direction(Direction::Up);
            false
        } else if byte == KEY_S || byte == KEY_S_UPPER || byte == KEY_K || byte == KEY_K_UPPER {
            self.game.set_direction(Direction::Down);
            false
        } else if byte == KEY_A || byte == KEY_A_UPPER || byte == KEY_J || byte == KEY_J_UPPER {
            self.game.set_direction(Direction::Left);
            false
        } else if byte == KEY_D || byte == KEY_D_UPPER || byte == KEY_L || byte == KEY_L_UPPER {
            self.game.set_direction(Direction::Right);
            false
        } else if byte == KEY_SPACE {
            if !self.game.is_waiting_for_start() {
                self.is_paused = !self.is_paused;
            }
            false
        } else if byte == KEY_R || byte == KEY_R_UPPER {
            if self.game.is_game_over() {
                let final_score = self.game.get_score();
                if final_score > self.high_score {
                    self.high_score = final_score;
                }
                self.game.reset(self.current_seed);
                self.level = 1;
                self.is_paused = false;
                self.frame_counter = 0;
            }
            false
        } else if byte == KEY_Q || byte == KEY_Q_UPPER {
            if self.game.get_score() > self.high_score {
                self.high_score = self.game.get_score();
            }
            true
        } else {
            if self.game.is_waiting_for_start() {
                self.game.set_direction(Direction::Neutral);
            }
            false
        }
    }

    /// A label of the strip of scores, in white.
    fn status_text(label: Label, x: i32, y: i32) -> (command: DrawCommand)
        ensures
            command == SessionView::status_text(label, x as int, y as int),
    {
        DrawCommand::Text {
            label,
            origin: Point { x, y },
            color: DisplayColor::white(),
            scale_x: 1,
            scale_y: 1,
        }
    }

    /// A black panel.
    fn panel(x: i32, y: i32, width: u32, height: u32) -> (command: DrawCommand)
        ensures
            command == SessionView::panel(x as int, y as int, width as int, height as int),
    {
        DrawCommand::FillRect { rect: Rect { x, y, width, height }, color: DisplayColor::black() }
    }

    /// The commands that draw the game as it stands, the strip of scores
    /// above it and what lies over the board.
    pub fn draw(&mut self) -> (commands: Vec<DrawCommand>)
        requires
            old(self).wf(),
        ensures
            final(self)@ == old(self)@,
            final(self).wf(),
            commands@ == old(self)@.drawn(),
    {
        let mut commands = self.game.draw();
        commands.push(Self::panel(0, 0, SURFACE as u32, STATUS_HEIGHT));
        commands.push(Self::status_text(Label::Score(self.game.get_score()), 2, 8));
        commands.push(Self::status_text(Label::Level(self.level), 50, 8));
        commands.push(Self::status_text(Label::HighScore(self.high_score), 98, 8));
        assert(commands@ =~= self@.game.drawn() + self@.status_strip());
        if self.game.is_waiting_for_start() {
            commands.push(Self::status_text(Label::StartPrompt, 30, 60));
        } else if self.is_paused {
            commands.push(Self::panel(30, 50, 70, 30));
            commands.push(Self::status_text(Label::Paused, 40, 60));
        } else if self.game.is_game_over() {
            commands.push(Self::panel(10, 50, 110, 50));
            commands.push(Self::status_text(Label::GameOver, 30, 60));
            commands.push(Self::status_text(Label::RestartHint, 10, 80));
        }
        assert(commands@ =~= self@.drawn());
        commands
    }

    /// The game that is paced.
    pub fn game(&self) -> (game: &SnakeGame<200>)
        ensures
            game@ == self@.game,
    {
        &self.game
    }

    /// How many ticks have been let through since the game was set up.
    pub fn frame_counter(&self) -> (frames: u32)
        ensures
            frames == self@.frame_counter,
    {
        self.frame_counter
    }

    /// The interval between two ticks, in milliseconds.
    pub fn update_interval(&self) -> (interval: u32)
        ensures
            interval == self@.update_interval,
    {
        self.update_interval
    }

    /// The points scored in the game so far.
    pub fn get_score(&self) -> (score: u32)
        ensures
            score == self@.game.score,
    {
        self.game.get_score()
    }

    /// The level reached.
    pub fn get_level(&self) -> (level: u32)
        ensures
            level == self@.level,
    {
        self.level
    }

    /// The highest score that has counted so far.
    pub fn high_score(&self) -> (score: u32)
        ensures
            score == self@.high_score,
    {
        self.high_score
    }

    /// Whether the game is paused.
    pub fn is_paused(&self) -> (paused: bool)
        ensures
            paused == self@.is_paused,
    {
        self.is_paused
    }

    /// Whether the snake has run into itself.
    pub fn is_game_over(&self) -> (over: bool)
        ensures
            over == self@.game.game_over,
    {
        self.game.is_game_over()
    }

    /// Whether the game still waits for its first key.
    pub fn is_waiting_for_start(&self) -> (waiting: bool)
        ensures
            waiting == self@.game.waiting_for_start,
    {
        self.game.is_waiting_for_start()
    }
}

} // verus!
