//! What a drawing of the game consists of: commands for a surface that can
//! be cleared, take filled rectangles and show a line of text.

use crate::color::{clamped, DisplayColor};
use crate::snake::{Pixel, Point};
use vstd::prelude::*;

verus! {

/// A rectangle of the surface, by its top left corner and its size.
#[derive(Clone, Copy, Debug, PartialEq, Eq, Structural)]
pub struct Rect {
    pub x: i32,
    pub y: i32,
    pub width: u32,
    pub height: u32,
}

/// A line of text that the surface shows; the words are the host's.
#[derive(Clone, Copy, Debug, PartialEq, Eq, Structural)]
pub enum Label {
    StartPrompt,
    Score(u32),
    Level(u32),
    HighScore(u32),
    Paused,
    GameOver,
    RestartHint,
}

/// One thing to do to the surface.
#[derive(Clone, Copy, Debug, PartialEq, Eq, Structural)]
pub enum DrawCommand {
    /// Fill the whole surface.
    Clear { color: DisplayColor },
    /// Fill a rectangle.
    FillRect { rect: Rect, color: DisplayColor },
    /// Show a line of text from `origin` on, each of its dots as a block of
    /// `scale_x` by `scale_y` dots of the surface.
    Text { label: Label, origin: Point, color: DisplayColor, scale_x: u8, scale_y: u8 },
}

/// `n / d` rounded towards zero, for a positive `d`.
pub open spec fn toward_zero(n: int, d: int) -> int {
    if n >= 0 {
        n / d
    } else {
        -((-n) / d)
    }
}

/// A surface seen through a grid: each cell of the grid is a block of
/// `scale_x` by `scale_y` dots.
#[derive(Clone, Copy, Debug, PartialEq, Eq, Structural)]
pub struct ScaledDisplay {
    pub size_x: u8,
    pub size_y: u8,
    pub scale_x: u8,
    pub scale_y: u8,
}

impl ScaledDisplay {
    /// The corner of the block of `cell` lies on the surface's coordinates.
    pub open spec fn reaches(self, cell: Point) -> bool {
        &&& i32::MIN <= cell.x * self.scale_x <= i32::MAX
        &&& i32::MIN <= cell.y * self.scale_y <= i32::MAX
    }

    /// The block of dots that stands for `cell`.
    pub open spec fn block(self, cell: Point) -> Rect {
        Rect {
            x: (cell.x * self.scale_x) as i32,
            y: (cell.y * self.scale_y) as i32,
            width: self.scale_x as u32,
            height: self.scale_y as u32,
        }
    }

    /// The command that draws `pixel` as its block.
    pub open spec fn fill(self, pixel: Pixel) -> DrawCommand {
        DrawCommand::FillRect { rect: self.block(pixel.point), color: pixel.color }
    }

    /// The side of the square that stands for a cell at the scale `scale`, in
    /// hundredths: the width of a cell at that scale, rounded down. A scale
    /// below zero leaves nothing, and no side is longer than the surface can
    /// count.
    pub open spec fn square_side(self, scale: int) -> int {
        if scale > 0 {
            clamped(self.scale_x * scale / 100, 0, u32::MAX as int)
        } else {
            0
        }
    }

    /// One coordinate of the corner of that square, for a cell that lies at
    /// `cell` along an axis on which a cell takes `cell_size` dots. The corner
    /// is moved from that of the cell by half of what the scale leaves of the
    /// cell; it is rounded towards zero and held to what the surface can
    /// count.
    pub open spec fn square_corner(cell: int, cell_size: int, scale: int) -> int {
        clamped(
            toward_zero(cell_size * (200 * cell + 100 - scale), 200),
            i32::MIN as int,
            i32::MAX as int,
        )
    }

    /// The square that stands for `cell` at the scale `scale`, in hundredths:
    /// as wide and as high as `square_side` says, whatever the height of a
    /// cell. A square without dots is none.
    pub open spec fn square(self, cell: Point, scale: int) -> Option<Rect> {
        if self.square_side(scale) > 0 {
            Some(
                Rect {
                    x: Self::square_corner(cell.x as int, self.scale_x as int, scale) as i32,
                    y: Self::square_corner(cell.y as int, self.scale_y as int, scale) as i32,
                    width: self.square_side(scale) as u32,
                    height: self.square_side(scale) as u32,
                },
            )
        } else {
            None
        }
    }

    /// One coordinate of the corner of a scaled square.
    fn corner(cell: i32, cell_size: u8, scale: i32) -> (at: i32)
        ensures
            at == Self::square_corner(cell as int, cell_size as int, scale as int),
    {
        let from: i64 = 200 * cell as i64 + 100 - scale as i64;
        proof {
            lemma_scaled_bounds(
                from as int,
                cell_size as int,
                -1_000_000_000_000,
                1_000_000_000_000,
                255,
            );
        }
        let across: i64 = cell_size as i64 * from;
        let at: i64 = if across >= 0 { across / 200 } else { -((-across) / 200) };
        if at < i32::MIN as i64 {
            i32::MIN
        } else if at > i32::MAX as i64 {
            i32::MAX
        } else {
            at as i32
        }
    }

    /// The square that stands for `cell` at the scale `scale`, in hundredths.
    pub fn scaled_square(&self, cell: Point, scale: i32) -> (rect: Option<Rect>)
        ensures
            rect == self.square(cell, scale as int),
    {
        if scale <= 0 {
            return None;
        }
        proof {
            lemma_scaled_bounds(scale as int, self.scale_x as int, 0, i32::MAX as int, 255);
        }
        let wide: i64 = self.scale_x as i64 * scale as i64 / 100;
        let side: u32 = if wide > u32::MAX as i64 { u32::MAX } else { wide as u32 };
        if side == 0 {
            return None;
        }
        Some(
            Rect {
                x: Self::corner(cell.x, self.scale_x, scale),
                y: Self::corner(cell.y, self.scale_y, scale),
                width: side,
                height: side,
            },
        )
    }

    /// The block of dots that stands for `cell`.
    pub fn cell_rect(&self, cell: Point) -> (rect: Rect)
        requires
            self.reaches(cell),
        ensures
            rect == self.block(cell),
    {
        Rect {
            x: (cell.x as i64 * self.scale_x as i64) as i32,
            y: (cell.y as i64 * self.scale_y as i64) as i32,
            width: self.scale_x as u32,
            height: self.scale_y as u32,
        }
    }

    /// The commands that draw `pixels`, one filled block for each, in their
    /// order.
    pub fn draw_iter(&self, pixels: &Vec<Pixel>) -> (commands: Vec<DrawCommand>)
        requires
            forall|i: int| 0 <= i < pixels@.len() ==> self.reaches((#[trigger] pixels@[i]).point),
        ensures
            commands@ == pixels@.map_values(|p: Pixel| self.fill(p)),
    {
        let mut commands: Vec<DrawCommand> = Vec::new();
        let mut i: usize = 0;
        while i < pixels.len()
            invariant
                0 <= i <= pixels@.len(),
                forall|j: int|
                    0 <= j < pixels@.len() ==> self.reaches((#[trigger] pixels@[j]).point),
                commands@ == pixels@.take(i as int).map_values(|p: Pixel| self.fill(p)),
            decreases pixels@.len() - i,
        {
            let pixel = pixels[i];
            commands.push(
                DrawCommand::FillRect { rect: self.cell_rect(pixel.point), color: pixel.color },
            );
            i += 1;
            assert(commands@ =~= pixels@.take(i as int).map_values(|p: Pixel| self.fill(p)));
        }
        assert(pixels@.take(i as int) =~= pixels@);
        commands
    }

    /// The grid as a rectangle: as many units as it has cells.
    pub fn bounding_box(&self) -> (rect: Rect)
        ensures
            rect == (Rect { x: 0, y: 0, width: self.size_x as u32, height: self.size_y as u32 }),
    {
        Rect { x: 0, y: 0, width: self.size_x as u32, height: self.size_y as u32 }
    }
}

/// A product of two bounded numbers is bounded by the products of the bounds.
pub proof fn lemma_scaled_bounds(v: int, scale: int, low: int, high: int, top: int)
    by (nonlinear_arith)
    requires
        low <= v <= high,
        low <= 0 <= high,
        0 <= scale <= top,
    ensures
        low * top <= v * scale <= high * top,
        scale * v == v * scale,
{
}

/// The block of a cell near a board is within reach of the surface's
/// coordinates.
pub proof fn lemma_near_board_reaches(grid: ScaledDisplay, cell: Point, width: int, height: int)
    requires
        cell.near_board(width, height),
        width <= u8::MAX,
        height <= u8::MAX,
    ensures
        grid.reaches(cell),
        -1024 <= cell.x * grid.scale_x <= 65025,
        0 <= cell.y * grid.scale_y <= 65025,
{
    lemma_scaled_bounds(cell.x as int, grid.scale_x as int, -4, 255, 255);
    lemma_scaled_bounds(cell.y as int, grid.scale_y as int, 0, 255, 255);
}

} // verus!
