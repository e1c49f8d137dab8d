use dualcam::compose::{draw_call, plan_tick, Camera, Flip, TickPlan};
use dualcam::format::{FrameFormat, PixelEncoding};
use dualcam::surface::{composite, Rgba, Surface};

const PLAIN: Flip = Flip { flip_x: false, flip_y: false };

fn rgb(width: u32, height: u32) -> FrameFormat {
    FrameFormat { width, height, encoding: PixelEncoding::RawRGB }
}

/// A frame in which every pixel has the given colour.
fn flat(width: u32, height: u32, colour: [u8; 3]) -> Vec<u8> {
    colour.repeat((width * height) as usize)
}

/// A black frame with one white pixel.
fn marked(width: u32, height: u32, row: u32, col: u32) -> Vec<u8> {
    let mut frame = flat(width, height, [0, 0, 0]);
    let at = ((row * width + col) * 3) as usize;
    frame[at..at + 3].copy_from_slice(&[255, 255, 255]);
    frame
}

/// A frame whose pixel in row r, column c is (r, c, 7).
fn gradient(width: u32, height: u32) -> Vec<u8> {
    let mut frame = Vec::new();
    for row in 0..height {
        for col in 0..width {
            frame.extend_from_slice(&[row as u8, col as u8, 7]);
        }
    }
    frame
}

fn pixel(surface: &Surface, row: u32, col: u32) -> Rgba {
    surface.pixel(row, col).unwrap()
}

#[test]
fn tick_without_frames_shows_the_cleared_surface() {
    let format = rgb(3, 2);
    let plan = plan_tick(&format, &[], PLAIN, &format, &[], PLAIN);
    let surface = composite(3, 2, &plan).unwrap();
    assert_eq!(*surface.pixels(), vec![0u8; 3 * 2 * 4]);
}

#[test]
fn only_the_second_camera_is_drawn_while_the_first_has_no_frame() {
    let format = rgb(2, 2);
    let plan = plan_tick(&format, &[], PLAIN, &format, &flat(2, 2, [10, 20, 30]), PLAIN);
    let surface = composite(2, 2, &plan).unwrap();
    for row in 0..2 {
        for col in 0..2 {
            assert_eq!(pixel(&surface, row, col), Rgba { r: 0, g: 20, b: 30, a: 255 });
        }
    }
}

#[test]
fn only_the_first_camera_is_drawn_while_the_second_has_no_frame() {
    let format = rgb(2, 2);
    let plan = plan_tick(&format, &flat(2, 2, [10, 20, 30]), PLAIN, &format, &[], PLAIN);
    let surface = composite(2, 2, &plan).unwrap();
    for row in 0..2 {
        for col in 0..2 {
            assert_eq!(pixel(&surface, row, col), Rgba { r: 10, g: 0, b: 0, a: 255 });
        }
    }
}

#[test]
fn red_and_blue_cameras_overlay_to_magenta() {
    let format = rgb(4, 3);
    let red = flat(4, 3, [255, 0, 0]);
    let blue = flat(4, 3, [0, 0, 255]);
    let plan = plan_tick(&format, &red, PLAIN, &format, &blue, PLAIN);
    let surface = composite(4, 3, &plan).unwrap();
    assert_eq!(*surface.pixels(), [255u8, 0, 255, 255].repeat(12));
    for row in 0..3 {
        for col in 0..4 {
            assert_eq!(pixel(&surface, row, col), Rgba { r: 255, g: 0, b: 255, a: 255 });
        }
    }
}

#[test]
fn each_camera_keeps_to_its_channels() {
    let format = rgb(1, 1);
    let plan = plan_tick(&format, &[11, 12, 13], PLAIN, &format, &[21, 22, 23], PLAIN);
    let surface = composite(1, 1, &plan).unwrap();
    assert_eq!(pixel(&surface, 0, 0), Rgba { r: 11, g: 22, b: 23, a: 255 });
}

#[test]
fn vertical_flip_moves_the_marker_to_the_opposite_corner() {
    let (width, height) = (5, 4);
    let format = rgb(width, height);
    let frame = marked(width, height, 0, 0);
    let flipped = Flip { flip_x: false, flip_y: true };
    let plan = plan_tick(&format, &frame, flipped, &format, &frame, PLAIN);
    let surface = composite(width, height, &plan).unwrap();
    for row in 0..height {
        for col in 0..width {
            let from_first = row == height - 1 && col == width - 1;
            let from_second = row == 0 && col == 0;
            let expected = Rgba {
                r: if from_first { 255 } else { 0 },
                g: if from_second { 255 } else { 0 },
                b: if from_second { 255 } else { 0 },
                a: 255,
            };
            assert_eq!(pixel(&surface, row, col), expected);
        }
    }
}

#[test]
fn unflipped_frame_keeps_every_pixel_in_place() {
    let format = rgb(3, 4);
    let plan = plan_tick(&format, &[], PLAIN, &format, &gradient(3, 4), PLAIN);
    let surface = composite(3, 4, &plan).unwrap();
    for row in 0..4 {
        for col in 0..3 {
            assert_eq!(pixel(&surface, row, col), Rgba { r: 0, g: col as u8, b: 7, a: 255 });
        }
    }
    let plan = plan_tick(&format, &gradient(3, 4), PLAIN, &format, &[], PLAIN);
    let surface = composite(3, 4, &plan).unwrap();
    for row in 0..4 {
        for col in 0..3 {
            assert_eq!(pixel(&surface, row, col), Rgba { r: row as u8, g: 0, b: 0, a: 255 });
        }
    }
}

#[test]
fn horizontal_flip_mirrors_columns_only() {
    let format = rgb(3, 2);
    let flip = Flip { flip_x: true, flip_y: false };
    let first = plan_tick(&format, &gradient(3, 2), flip, &format, &[], PLAIN);
    let rows = composite(3, 2, &first).unwrap();
    let second = plan_tick(&format, &[], PLAIN, &format, &gradient(3, 2), flip);
    let cols = composite(3, 2, &second).unwrap();
    for row in 0..2 {
        for col in 0..3 {
            assert_eq!(pixel(&rows, row, col).r, row as u8);
            assert_eq!(pixel(&cols, row, col).g, (2 - col) as u8);
        }
    }
}

#[test]
fn both_flips_turn_the_picture_upside_down_only() {
    let format = rgb(3, 2);
    let flip = Flip { flip_x: true, flip_y: true };
    let first = plan_tick(&format, &gradient(3, 2), flip, &format, &[], PLAIN);
    let rows = composite(3, 2, &first).unwrap();
    let second = plan_tick(&format, &[], PLAIN, &format, &gradient(3, 2), flip);
    let cols = composite(3, 2, &second).unwrap();
    for row in 0..2 {
        for col in 0..3 {
            assert_eq!(pixel(&rows, row, col).r, (1 - row) as u8);
            assert_eq!(pixel(&cols, row, col).g, col as u8);
        }
    }
}

#[test]
fn new_surface_is_transparent_black() {
    let surface = Surface::new(2, 3).unwrap();
    assert_eq!((surface.width(), surface.height()), (2, 3));
    assert_eq!(*surface.pixels(), vec![0u8; 24]);
    assert_eq!(pixel(&surface, 2, 1), Rgba { r: 0, g: 0, b: 0, a: 0 });
}

#[test]
fn surface_has_no_pixel_outside() {
    let surface = Surface::new(2, 3).unwrap();
    assert_eq!(surface.pixel(3, 0), None);
    assert_eq!(surface.pixel(0, 2), None);
    assert_eq!(surface.pixel(u32::MAX, u32::MAX), None);
}

#[test]
fn surface_without_pixels_is_empty() {
    let surface = Surface::new(0, 5).unwrap();
    assert!(surface.pixels().is_empty());
    assert_eq!(surface.pixel(0, 0), None);
}

#[test]
fn surface_too_large_for_memory_is_not_made() {
    assert!(Surface::new(u32::MAX, u32::MAX).is_none());
}

#[test]
fn texture_of_another_size_is_not_drawn() {
    let call = draw_call(Camera::First, &rgb(2, 2), &flat(2, 2, [9, 9, 9]), PLAIN).unwrap();
    let mut surface = Surface::new(2, 3).unwrap();
    assert!(!surface.draw(&call));
    assert_eq!(*surface.pixels(), vec![0u8; 24]);
    let mut fitting = Surface::new(2, 2).unwrap();
    assert!(fitting.draw(&call));
    assert_eq!(*fitting.pixels(), [9u8, 0, 0, 255].repeat(4));
}

#[test]
fn later_draw_replaces_the_earlier_in_its_channels() {
    let mut surface = Surface::new(1, 1).unwrap();
    let a = draw_call(Camera::First, &rgb(1, 1), &[100, 101, 102], PLAIN).unwrap();
    let b = draw_call(Camera::First, &rgb(1, 1), &[50, 51, 52], PLAIN).unwrap();
    let c = draw_call(Camera::Second, &rgb(1, 1), &[1, 2, 3], PLAIN).unwrap();
    assert!(surface.draw(&a));
    assert!(surface.draw(&c));
    assert!(surface.draw(&b));
    assert_eq!(pixel(&surface, 0, 0), Rgba { r: 50, g: 2, b: 3, a: 255 });
}

#[test]
fn composite_skips_a_camera_of_another_size() {
    let plan = TickPlan {
        first: draw_call(Camera::First, &rgb(1, 1), &[200, 0, 0], PLAIN),
        second: draw_call(Camera::Second, &rgb(2, 1), &[0, 1, 2, 0, 3, 4], PLAIN),
    };
    let surface = composite(2, 1, &plan).unwrap();
    assert_eq!(*surface.pixels(), vec![0, 1, 2, 255, 0, 3, 4, 255]);
}
