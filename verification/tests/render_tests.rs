use snake_engine::color::DisplayColor;
use snake_engine::render::{DrawCommand, Rect, ScaledDisplay};
use snake_engine::snake::{Pixel, Point};

const RED: DisplayColor = DisplayColor { r: 31, g: 0, b: 0 };
const BLUE: DisplayColor = DisplayColor { r: 0, g: 0, b: 31 };

#[test]
fn cell_rect_scales_the_corner_and_takes_the_size_of_a_cell() {
    let grid = ScaledDisplay { size_x: 64, size_y: 32, scale_x: 2, scale_y: 4 };
    assert_eq!(grid.cell_rect(Point { x: 0, y: 0 }), Rect { x: 0, y: 0, width: 2, height: 4 });
    assert_eq!(grid.cell_rect(Point { x: 5, y: 7 }), Rect { x: 10, y: 28, width: 2, height: 4 });
    assert_eq!(grid.cell_rect(Point { x: -3, y: 1 }), Rect { x: -6, y: 4, width: 2, height: 4 });
}

#[test]
fn draw_iter_gives_one_block_for_each_pixel_in_order() {
    let grid = ScaledDisplay { size_x: 10, size_y: 10, scale_x: 3, scale_y: 3 };
    let pixels = vec![
        Pixel { point: Point { x: 1, y: 2 }, color: RED },
        Pixel { point: Point { x: 0, y: 9 }, color: BLUE },
    ];
    let commands = grid.draw_iter(&pixels);
    assert_eq!(
        commands,
        vec![
            DrawCommand::FillRect { rect: Rect { x: 3, y: 6, width: 3, height: 3 }, color: RED },
            DrawCommand::FillRect { rect: Rect { x: 0, y: 27, width: 3, height: 3 }, color: BLUE },
        ]
    );
    assert_eq!(grid.draw_iter(&Vec::new()), Vec::new());
}

#[test]
fn bounding_box_counts_cells() {
    let grid = ScaledDisplay { size_x: 64, size_y: 32, scale_x: 2, scale_y: 4 };
    assert_eq!(grid.bounding_box(), Rect { x: 0, y: 0, width: 64, height: 32 });
}

#[test]
fn scaled_square_at_full_size_is_the_block_of_the_cell() {
    let grid = ScaledDisplay { size_x: 8, size_y: 8, scale_x: 20, scale_y: 20 };
    assert_eq!(
        grid.scaled_square(Point { x: 3, y: 5 }, 100),
        Some(Rect { x: 60, y: 100, width: 20, height: 20 })
    );
    assert_eq!(
        grid.scaled_square(Point { x: 0, y: 0 }, 100),
        Some(Rect { x: 0, y: 0, width: 20, height: 20 })
    );
}

#[test]
fn scaled_square_shrinks_and_grows_about_the_middle_of_the_cell() {
    let grid = ScaledDisplay { size_x: 8, size_y: 8, scale_x: 20, scale_y: 20 };
    // 17 dots wide, moved by 1.5 dots, which rounds towards zero.
    assert_eq!(
        grid.scaled_square(Point { x: 3, y: 5 }, 85),
        Some(Rect { x: 61, y: 101, width: 17, height: 17 })
    );
    // 23 dots wide, moved back by 1.5 dots: 58.5 and 98.5.
    assert_eq!(
        grid.scaled_square(Point { x: 3, y: 5 }, 115),
        Some(Rect { x: 58, y: 98, width: 23, height: 23 })
    );
    // In the first cell the corner comes to lie before the surface: -1.5.
    assert_eq!(
        grid.scaled_square(Point { x: 0, y: 1 }, 115),
        Some(Rect { x: -1, y: 18, width: 23, height: 23 })
    );
    assert_eq!(
        grid.scaled_square(Point { x: 2, y: 2 }, 50),
        Some(Rect { x: 45, y: 45, width: 10, height: 10 })
    );
    assert_eq!(
        grid.scaled_square(Point { x: 2, y: 2 }, 300),
        Some(Rect { x: 20, y: 20, width: 60, height: 60 })
    );
}

#[test]
fn scaled_square_is_as_wide_as_high_whatever_the_cell() {
    let grid = ScaledDisplay { size_x: 9, size_y: 5, scale_x: 10, scale_y: 8 };
    assert_eq!(
        grid.scaled_square(Point { x: 4, y: 2 }, 100),
        Some(Rect { x: 40, y: 16, width: 10, height: 10 })
    );
    // Moved by 10 * 0.2 / 2 across and by 8 * 0.2 / 2 down.
    assert_eq!(
        grid.scaled_square(Point { x: 4, y: 2 }, 80),
        Some(Rect { x: 41, y: 16, width: 8, height: 8 })
    );
}

#[test]
fn scaled_square_without_dots_is_none() {
    let grid = ScaledDisplay { size_x: 64, size_y: 64, scale_x: 2, scale_y: 2 };
    assert_eq!(grid.scaled_square(Point { x: 1, y: 1 }, 0), None);
    assert_eq!(grid.scaled_square(Point { x: 1, y: 1 }, -100), None);
    assert_eq!(grid.scaled_square(Point { x: 1, y: 1 }, i32::MIN), None);
    assert_eq!(grid.scaled_square(Point { x: 1, y: 1 }, 49), None);
    assert_eq!(
        grid.scaled_square(Point { x: 1, y: 1 }, 50),
        Some(Rect { x: 2, y: 2, width: 1, height: 1 })
    );
    let flat = ScaledDisplay { size_x: 64, size_y: 64, scale_x: 0, scale_y: 2 };
    assert_eq!(flat.scaled_square(Point { x: 1, y: 1 }, 100), None);
}

#[test]
fn scaled_square_is_held_to_what_the_surface_can_count() {
    let grid = ScaledDisplay { size_x: 1, size_y: 1, scale_x: 255, scale_y: 255 };
    assert_eq!(
        grid.scaled_square(Point { x: i32::MAX, y: i32::MIN }, i32::MAX),
        Some(Rect { x: i32::MAX, y: i32::MIN, width: u32::MAX, height: u32::MAX })
    );
    assert_eq!(
        grid.scaled_square(Point { x: 0, y: 0 }, 1_000_000_000),
        Some(Rect {
            x: -1_274_999_872,
            y: -1_274_999_872,
            width: 2_550_000_000,
            height: 2_550_000_000,
        })
    );
}
