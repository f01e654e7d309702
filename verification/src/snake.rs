//! The snake: an ordered body of cells on a board whose edges wrap around.

use crate::color::DisplayColor;
use vstd::arithmetic::div_mod::{
    lemma_div_pos_is_pos, lemma_fundamental_div_mod, lemma_mod_pos_bound,
    lemma_multiply_divide_lt,
};
use vstd::prelude::*;
use vstd::set_lib::{lemma_int_range, lemma_len_subset, lemma_map_size_bound, set_int_range};

verus! {

/// How many cells a new snake has.
pub const INITIAL_LENGTH: usize = 5;

/// A way to face on the board.
#[derive(PartialEq, Eq, Structural, Debug, Clone, Copy)]
pub enum Direction {
    Left,
    Right,
    Up,
    Down,
    /// No direction at all: asking for it changes nothing.
    Neutral,
}

impl Direction {
    /// The direction that points the other way; `Neutral` has none.
    pub open spec fn reverse(self) -> Direction {
        match self {
            Direction::Left => Direction::Right,
            Direction::Right => Direction::Left,
            Direction::Up => Direction::Down,
            Direction::Down => Direction::Up,
            Direction::Neutral => Direction::Neutral,
        }
    }

    /// The facing after `wanted` is asked for: `wanted`, unless it is `Neutral`
    /// or the reverse of the facing.
    pub open spec fn turned(self, wanted: Direction) -> Direction {
        if wanted == Direction::Neutral || wanted == self.reverse() {
            self
        } else {
            wanted
        }
    }
}

/// A cell of the board, by column and row.
#[derive(PartialEq, Eq, Structural, Debug, Clone, Copy)]
pub struct Point {
    pub x: i32,
    pub y: i32,
}

impl Point {
    /// The cell lies on a board of the given size.
    pub open spec fn on_board(self, width: int, height: int) -> bool {
        0 <= self.x < width && 0 <= self.y < height
    }

    /// The cell lies on the board or a few cells to the left of it, where the
    /// body of a new snake on a narrow board begins.
    pub open spec fn near_board(self, width: int, height: int) -> bool {
        1 - INITIAL_LENGTH <= self.x < width && 0 <= self.y < height
    }

    /// The neighbouring cell in `direction` on a board whose edges wrap around.
    pub open spec fn advanced(self, direction: Direction, width: int, height: int) -> Point {
        match direction {
            Direction::Left => Point {
                x: if self.x == 0 { (width - 1) as i32 } else { (self.x - 1) as i32 },
                y: self.y,
            },
            Direction::Right => Point {
                x: if self.x == width - 1 { 0 } else { (self.x + 1) as i32 },
                y: self.y,
            },
            Direction::Up => Point {
                x: self.x,
                y: if self.y == 0 { (height - 1) as i32 } else { (self.y - 1) as i32 },
            },
            Direction::Down => Point {
                x: self.x,
                y: if self.y == height - 1 { 0 } else { (self.y + 1) as i32 },
            },
            Direction::Neutral => self,
        }
    }
}

/// The cell of a board `width` cells wide that comes at `index` when the
/// board is read row by row.
pub open spec fn cell_at(index: int, width: int) -> Point {
    Point { x: (index % width) as i32, y: (index / width) as i32 }
}

/// Every index below the number of cells names a cell of the board.
pub proof fn lemma_cell_at_on_board(index: int, width: int, height: int)
    requires
        1 <= width <= u8::MAX,
        1 <= height <= u8::MAX,
        0 <= index < width * height,
    ensures
        cell_at(index, width).on_board(width, height),
        cell_at(index, width).x == index % width,
        cell_at(index, width).y == index / width,
        index == cell_at(index, width).y * width + cell_at(index, width).x,
{
    lemma_mod_pos_bound(index, width);
    lemma_div_pos_is_pos(index, width);
    lemma_multiply_divide_lt(index, width, height);
    lemma_fundamental_div_mod(index, width);
    assert(width * (index / width) == (index / width) * width) by (nonlinear_arith);
}

/// A cell and the colour it is drawn in.
#[derive(PartialEq, Eq, Structural, Debug, Clone, Copy)]
pub struct Pixel {
    pub point: Point,
    pub color: DisplayColor,
}

/// The mathematical value of a snake.
pub struct SnakeView {
    /// The whole store of cells; the body is its first `len` cells, head first.
    pub parts: Seq<Pixel>,
    pub len: nat,
    pub facing: Direction,
    pub width: int,
    pub height: int,
}

impl SnakeView {
    /// The cells of the snake, head first.
    pub open spec fn body(self) -> Seq<Pixel> {
        self.parts.take(self.len as int)
    }

    /// The cell that the head lies on.
    pub open spec fn head(self) -> Point {
        self.parts[0].point
    }

    /// Some cell of the body lies on `p`.
    pub open spec fn occupies(self, p: Point) -> bool {
        exists|i: int| 0 <= i < self.len && (#[trigger] self.parts[i]).point == p
    }

    /// The head lies on another cell of the body.
    pub open spec fn hits_itself(self) -> bool {
        exists|i: int| 1 <= i < self.len && (#[trigger] self.parts[i]).point == self.head()
    }

    /// The head has left the board, or lies on another cell of the body.
    pub open spec fn collides(self) -> bool {
        !self.head().on_board(self.width, self.height) || self.hits_itself()
    }

    /// The body holds at least the head and leaves one cell of the store
    /// free; the board has cells; the head lies on the board and no cell of
    /// the store lies far from it.
    pub open spec fn wf(self, capacity: int) -> bool {
        &&& self.parts.len() == capacity
        &&& 1 <= self.len <= capacity - 1
        &&& 1 <= self.width <= u8::MAX
        &&& 1 <= self.height <= u8::MAX
        &&& self.head().on_board(self.width, self.height)
        &&& forall|i: int|
            0 <= i < capacity ==> (#[trigger] self.parts[i]).point.near_board(
                self.width,
                self.height,
            )
    }

    /// A new snake: `INITIAL_LENGTH` cells in a row that ends, on the right,
    /// with the head in the middle of the board; the rest of the store lies on
    /// the first cell of the board.
    pub open spec fn fresh(color: DisplayColor, width: int, height: int, capacity: int)
        -> SnakeView {
        SnakeView {
            parts: Seq::new(
                capacity as nat,
                |i: int|
                    Pixel {
                        point: if i < INITIAL_LENGTH {
                            Point { x: (width / 2 - i) as i32, y: (height / 2) as i32 }
                        } else {
                            Point { x: 0, y: 0 }
                        },
                        color,
                    },
            ),
            len: INITIAL_LENGTH as nat,
            facing: Direction::Right,
            width,
            height,
        }
    }

    /// The snake one step on: every cell takes the place of the one before
    /// it, and the head moves to its neighbour in the facing direction.
    pub open spec fn stepped(self) -> SnakeView {
        let head = Pixel {
            point: self.head().advanced(self.facing, self.width, self.height),
            color: self.parts[0].color,
        };
        SnakeView {
            parts: seq![head] + self.parts.take(self.len as int) + self.parts.skip(
                self.len as int + 1,
            ),
            ..self
        }
    }

    /// The snake one cell longer, where the store has room.
    pub open spec fn grown(self) -> SnakeView {
        if self.len + 1 < self.parts.len() {
            SnakeView { len: self.len + 1, ..self }
        } else {
            self
        }
    }
}

/// A snake with a store of `MAX_SIZE` cells.
pub struct Snake<const MAX_SIZE: usize> {
    parts: Vec<Pixel>,
    len: usize,
    direction: Direction,
    size_x: u8,
    size_y: u8,
}

impl<const MAX_SIZE: usize> View for Snake<MAX_SIZE> {
    type V = SnakeView;

    closed spec fn view(&self) -> SnakeView {
        SnakeView {
            parts: self.parts@,
            len: self.len as nat,
            facing: self.direction,
            width: self.size_x as int,
            height: self.size_y as int,
        }
    }
}

impl<const MAX_SIZE: usize> Snake<MAX_SIZE> {
    /// The snake is one that `new` and the methods below can have made.
    pub open spec fn wf(&self) -> bool {
        self@.wf(MAX_SIZE as int)
    }

    /// A snake of `INITIAL_LENGTH` cells in a row, its head in the middle of
    /// the board, facing right.
    pub fn new(color: DisplayColor, size_x: u8, size_y: u8) -> (snake: Snake<MAX_SIZE>)
        requires
            MAX_SIZE > INITIAL_LENGTH,
            size_x >= 1,
            size_y >= 1,
        ensures
            snake.wf(),
            snake@ == SnakeView::fresh(color, size_x as int, size_y as int, MAX_SIZE as int),
    {
        let initial_x: i32 = (size_x as i32) / 2;
        let initial_y: i32 = (size_y as i32) / 2;
        let mut parts: Vec<Pixel> = Vec::new();
        let mut i: usize = 0;
        while i < MAX_SIZE
            invariant
                i <= MAX_SIZE,
                parts@.len() == i,
                initial_x == size_x / 2,
                initial_y == size_y / 2,
                parts@ =~= SnakeView::fresh(
                    color,
                    size_x as int,
                    size_y as int,
                    MAX_SIZE as int,
                ).parts.take(i as int),
            decreases MAX_SIZE - i,
        {
            let point = if i < INITIAL_LENGTH {
                Point { x: initial_x - i as i32, y: initial_y }
            } else {
                Point { x: 0, y: 0 }
            };
            parts.push(Pixel { point, color });
            i += 1;
        }
        let snake = Snake {
            parts,
            len: INITIAL_LENGTH,
            direction: Direction::Right,
            size_x,
            size_y,
        };
        assert(snake@.parts =~= SnakeView::fresh(
            color,
            size_x as int,
            size_y as int,
            MAX_SIZE as int,
        ).parts);
        snake
    }

    /// Turns the snake to `direction`, unless that is `Neutral` or the
    /// reverse of the way it faces.
    pub fn set_direction(&mut self, direction: Direction)
        ensures
            old(self).wf() ==> final(self).wf(),
            final(self)@ == (SnakeView {
                facing: old(self)@.facing.turned(direction),
                ..old(self)@
            }),
    {
        match direction {
            Direction::Left => {
                if self.direction != Direction::Right {
                    self.direction = direction;
                }
            },
            Direction::Right => {
                if self.direction != Direction::Left {
                    self.direction = direction;
                }
            },
            Direction::Up => {
                if self.direction != Direction::Down {
                    self.direction = direction;
                }
            },
            Direction::Down => {
                if self.direction != Direction::Up {
                    self.direction = direction;
                }
            },
            Direction::Neutral => {},
        }
    }

    /// Lengthens the body by the cell behind its tail, where the store has
    /// room; a full snake stays as it is.
    pub fn grow(&mut self)
        requires
            old(self).wf(),
        ensures
            final(self).wf(),
            final(self)@ == old(self)@.grown(),
    {
        if self.len < MAX_SIZE - 1 {
            self.len += 1;
        }
    }

    /// Moves the snake one cell on.
    pub fn make_step(&mut self)
        requires
            old(self).wf(),
        ensures
            final(self).wf(),
            final(self)@ == old(self)@.stepped(),
    {
        let mut i: usize = self.len;
        while i > 0
            invariant
                0 <= i <= self.len < MAX_SIZE,
                self.parts@.len() == MAX_SIZE,
                self.len == old(self).len,
                self.direction == old(self).direction,
                self.size_x == old(self).size_x,
                self.size_y == old(self).size_y,
                forall|j: int| 0 <= j <= i ==> self.parts@[j] == old(self).parts@[j],
                forall|j: int| i < j <= self.len ==> self.parts@[j] == old(self).parts@[j - 1],
                forall|j: int| self.len < j < MAX_SIZE ==> self.parts@[j] == old(self).parts@[j],
            decreases i,
        {
            let previous = self.parts[i - 1];
            self.parts.set(i, previous);
            i -= 1;
        }
        let head = self.parts[0];
        let width: i32 = self.size_x as i32;
        let height: i32 = self.size_y as i32;
        let point = match self.direction {
            Direction::Left => Point {
                x: if head.point.x == 0 { width - 1 } else { head.point.x - 1 },
                y: head.point.y,
            },
            Direction::Right => Point {
                x: if head.point.x == width - 1 { 0 } else { head.point.x + 1 },
                y: head.point.y,
            },
            Direction::Up => Point {
                x: head.point.x,
                y: if head.point.y == 0 { height - 1 } else { head.point.y - 1 },
            },
            Direction::Down => Point {
                x: head.point.x,
                y: if head.point.y == height - 1 { 0 } else { head.point.y + 1 },
            },
            Direction::Neutral => head.point,
        };
        self.parts.set(0, Pixel { point, color: head.color });
        assert(self@.parts =~= old(self)@.stepped().parts);
    }

    /// Whether the head has run into the body or left the board.
    pub fn check_collision(&self) -> (hit: bool)
        requires
            self.wf(),
        ensures
            hit == self@.collides(),
    {
        let head = self.parts[0].point;
        let width: i32 = self.size_x as i32;
        let height: i32 = self.size_y as i32;
        if head.x < 0 || head.x >= width || head.y < 0 || head.y >= height {
            return true;
        }
        let mut i: usize = 1;
        while i < self.len
            invariant
                1 <= i <= self.len < self.parts@.len(),
                head == self.parts@[0].point,
                forall|j: int| 1 <= j < i ==> (#[trigger] self.parts@[j]).point != head,
            decreases self.len - i,
        {
            if self.parts[i].point == head {
                return true;
            }
            i += 1;
        }
        false
    }

    /// How many cells the body has.
    pub fn len(&self) -> (n: usize)
        requires
            self.wf(),
        ensures
            n == self@.len,
            1 <= n < MAX_SIZE,
    {
        self.len
    }

    /// The way the snake faces.
    pub fn direction(&self) -> (facing: Direction)
        ensures
            facing == self@.facing,
    {
        self.direction
    }

    /// The width of the board, in cells.
    pub fn width(&self) -> (w: u8)
        ensures
            w == self@.width,
    {
        self.size_x
    }

    /// The height of the board, in cells.
    pub fn height(&self) -> (h: u8)
        ensures
            h == self@.height,
    {
        self.size_y
    }

    /// The cell of the body at `index`, counted from the head.
    pub fn part(&self, index: usize) -> (cell: Pixel)
        requires
            self.wf(),
            index < self@.len,
        ensures
            cell == self@.parts[index as int],
            cell.point.near_board(self@.width, self@.height),
    {
        self.parts[index]
    }

    /// The head of the snake.
    pub fn head(&self) -> (cell: Pixel)
        requires
            self.wf(),
        ensures
            cell == self@.parts[0],
            cell.point == self@.head(),
            cell.point.on_board(self@.width, self@.height),
    {
        self.parts[0]
    }

    /// The last cell of the body.
    pub fn tail(&self) -> (cell: Pixel)
        requires
            self.wf(),
        ensures
            cell == self@.parts[self@.len - 1],
            cell.point.near_board(self@.width, self@.height),
    {
        self.parts[self.len - 1]
    }

    /// Whether some cell of the body lies on `p`.
    pub fn occupies(&self, p: Point) -> (taken: bool)
        requires
            self.wf(),
        ensures
            taken == self@.occupies(p),
    {
        let mut i: usize = 0;
        while i < self.len
            invariant
                0 <= i <= self.len <= self.parts@.len(),
                forall|j: int| 0 <= j < i ==> (#[trigger] self.parts@[j]).point != p,
            decreases self.len - i,
        {
            if self.parts[i].point == p {
                assert(self@.parts[i as int].point == p);
                return true;
            }
            i += 1;
        }
        false
    }

    /// A cursor over the body, head first.
    pub fn into_iter(&self) -> (cursor: SnakeIntoIterator<'_, MAX_SIZE>)
        requires
            self.wf(),
        ensures
            cursor.wf(),
            cursor@ == self@.body(),
    {
        let cursor = SnakeIntoIterator { snake: self, index: 0 };
        assert(cursor@ =~= self@.body());
        cursor
    }
}

/// A cursor over the body of a snake. Its value is the cells still to come.
pub struct SnakeIntoIterator<'a, const MAX_SIZE: usize> {
    snake: &'a Snake<MAX_SIZE>,
    index: usize,
}

impl<'a, const MAX_SIZE: usize> View for SnakeIntoIterator<'a, MAX_SIZE> {
    type V = Seq<Pixel>;

    closed spec fn view(&self) -> Seq<Pixel> {
        self.snake@.body().skip(self.index as int)
    }
}

impl<'a, const MAX_SIZE: usize> SnakeIntoIterator<'a, MAX_SIZE> {
    /// The cursor stands inside the body of a well-formed snake, or at its
    /// end.
    pub closed spec fn wf(&self) -> bool {
        self.snake.wf() && self.index <= self.snake@.len
    }

    /// The next cell of the body, or nothing once the tail has been handed
    /// out.
    pub fn next(&mut self) -> (item: Option<Pixel>)
        requires
            old(self).wf(),
        ensures
            final(self).wf(),
            old(self)@.len() == 0 ==> item.is_none() && final(self)@ == old(self)@,
            old(self)@.len() > 0 ==> item == Some(old(self)@[0]) && final(self)@ == old(self)@.skip(
                1,
            ),
    {
        if self.index < self.snake.len() {
            let cur = self.snake.part(self.index);
            self.index += 1;
            assert(final(self)@ =~= old(self)@.skip(1));
            return Some(cur);
        }
        None
    }
}

/// Asking for the reverse of the facing changes nothing; asking for any other
/// direction but `Neutral` sets it.
pub proof fn lemma_reversal_rejected(facing: Direction, wanted: Direction)
    ensures
        facing.turned(facing.reverse()) == facing,
        wanted != Direction::Neutral && wanted != facing.reverse() ==> facing.turned(wanted)
            == wanted,
{
}

/// The length after `grow` has been called `times` times.
pub open spec fn grown_times(v: SnakeView, times: nat) -> SnakeView
    decreases times,
{
    if times == 0 {
        v
    } else {
        grown_times(v, (times - 1) as nat).grown()
    }
}

/// Growth never shortens the snake and never takes it past the last cell but
/// one of its store, however often it is repeated.
pub proof fn lemma_growth_capped(v: SnakeView, capacity: int, times: nat)
    requires
        v.wf(capacity),
    ensures
        grown_times(v, times).wf(capacity),
        v.len <= grown_times(v, times).len <= capacity - 1,
        grown_times(v, times).len <= v.len + times,
    decreases times,
{
    if times > 0 {
        lemma_growth_capped(v, capacity, (times - 1) as nat);
    }
}

/// The snake lies on a cell exactly if that cell is the place of one of the
/// cells of its body.
pub proof fn lemma_occupies_is_body_membership(v: SnakeView, p: Point)
    requires
        v.len <= v.parts.len(),
    ensures
        v.occupies(p) <==> exists|i: int|
            0 <= i < v.body().len() && (#[trigger] v.body()[i]).point == p,
        v.body().len() == v.len,
{
    if v.occupies(p) {
        let i = choose|i: int| 0 <= i < v.len && (#[trigger] v.parts[i]).point == p;
        assert(v.body()[i].point == p);
    }
    if exists|i: int| 0 <= i < v.body().len() && (#[trigger] v.body()[i]).point == p {
        let i = choose|i: int| 0 <= i < v.body().len() && (#[trigger] v.body()[i]).point == p;
        assert(v.parts[i].point == p);
    }
}

/// A board with more cells than the snake has cells holds one that the snake
/// does not lie on.
pub proof fn lemma_free_cell_exists(v: SnakeView, width: int, height: int)
    requires
        1 <= width <= u8::MAX,
        1 <= height <= u8::MAX,
        v.len < width * height,
    ensures
        exists|k: int| 0 <= k < width * height && !v.occupies(#[trigger] cell_at(k, width)),
{
    if forall|k: int| 0 <= k < width * height ==> v.occupies(#[trigger] cell_at(k, width)) {
        let key = |i: int| v.parts[i].point.y * width + v.parts[i].point.x;
        let indices = set_int_range(0, v.len as int);
        let keys = indices.map(key);
        let board = set_int_range(0, width * height);
        lemma_int_range(0, v.len as int);
        lemma_int_range(0, width * height);
        lemma_map_size_bound(indices, keys, key);
        assert forall|k: int| board.contains(k) implies keys.contains(k) by {
            lemma_cell_at_on_board(k, width, height);
            assert(v.occupies(cell_at(k, width)));
            let i = choose|i: int|
                0 <= i < v.len && (#[trigger] v.parts[i]).point == cell_at(k, width);
            assert(indices.contains(i));
            assert(key(i) == k);
        }
        lemma_len_subset(board, keys);
        assert(false);
    }
}

/// A step keeps the head on the board: the edges wrap around, so the only
/// collision a snake can run into is one with its own body.
pub proof fn lemma_step_stays_on_board(v: SnakeView, capacity: int)
    requires
        v.wf(capacity),
    ensures
        v.stepped().wf(capacity),
        v.stepped().len == v.len,
        v.stepped().collides() == v.stepped().hits_itself(),
{
    let w = v.stepped();
    assert forall|i: int| 0 <= i < capacity implies (#[trigger] w.parts[i]).point.near_board(
        w.width,
        w.height,
    ) by {
        if 1 <= i <= v.len {
            assert(w.parts[i] == v.parts[i - 1]);
        } else if i > v.len {
            assert(w.parts[i] == v.parts[i]);
        }
    }
}

} // verus!
