use im2as::errors::AsciiError;
use im2as::img::Img;
use im2as::ramp::CharacterRamp;
use im2as::render::{render_image, RenderMode};
use im2as::transform::Filter;
use im2as::{print_image_pixelated, print_image_with_ramp};

use owo_colors::OwoColorize;

fn styled(c: char, r: u8, g: u8, b: u8) -> String {
    format!("{}", c.color(owo_colors::Rgb(r, g, b)).bold())
}

fn dyn_rgba(width: u32, height: u32, data: Vec<u8>) -> image::DynamicImage {
    let buf: image::RgbaImage = image::ImageBuffer::from_raw(width, height, data).unwrap();
    image::DynamicImage::ImageRgba8(buf)
}

#[test]
fn two_by_two_black_white_scenario() {
    // 2x2 fully opaque image, columns black and white, ramp "# ", width 2,
    // nearest filter, contrast 0: one output row of a black '#' and a
    // white-colorized space.
    let data: Vec<u8> = vec![
        0, 0, 0, 255, 255, 255, 255, 255, //
        0, 0, 0, 255, 255, 255, 255, 255,
    ];
    let img = dyn_rgba(2, 2, data);
    let out = print_image_with_ramp(&img, 2, 0, "# ", Filter::Nearest, None).unwrap();
    let expected = format!("{}{}\n", styled('#', 0, 0, 0), styled(' ', 255, 255, 255));
    assert_eq!(out, expected);
}

#[test]
fn rendering_twice_is_byte_identical() {
    let data: Vec<u8> = vec![
        5, 10, 15, 255, 250, 240, 230, 255, //
        90, 90, 90, 0, 17, 200, 3, 255,
    ];
    let img = dyn_rgba(2, 2, data);
    let a = print_image_with_ramp(&img, 2, 35, "@+. ", Filter::Linear, Some("+".to_string()))
        .unwrap();
    let b = print_image_with_ramp(&img, 2, 35, "@+. ", Filter::Linear, Some("+".to_string()))
        .unwrap();
    assert_eq!(a.as_bytes(), b.as_bytes());
    let first = print_image_pixelated(&img, 2, 35, Filter::Gaussian).unwrap();
    let second = print_image_pixelated(&img, 2, 35, Filter::Gaussian).unwrap();
    assert_eq!(first.as_bytes(), second.as_bytes());
}

#[test]
fn transparent_pixel_renders_as_plain_space() {
    // A 1x2 fully transparent image at width 1 becomes a single transparent
    // cell, rendered as one space and a line break, whatever the ramp, drop
    // set, mode or contrast.
    let img = dyn_rgba(1, 2, vec![200, 100, 50, 0, 200, 100, 50, 0]);
    let with_ramp = print_image_with_ramp(&img, 1, 0, "#@", Filter::Nearest, None).unwrap();
    assert_eq!(with_ramp, " \n");
    let with_drop =
        print_image_with_ramp(&img, 1, 60, "#@", Filter::Nearest, Some("#@".to_string())).unwrap();
    assert_eq!(with_drop, " \n");
    let pixelated = print_image_pixelated(&img, 1, -30, Filter::Gaussian).unwrap();
    assert_eq!(pixelated, " \n");
}

#[test]
fn height_below_one_row_renders_as_empty_text() {
    // A 1x1 image at width 1: the aspect-corrected height 1/2 truncates to
    // zero rows, so the rendering is empty.
    let img = dyn_rgba(1, 1, vec![10, 20, 30, 255]);
    let out = print_image_with_ramp(&img, 1, 0, "# ", Filter::Nearest, None).unwrap();
    assert_eq!(out, "");
    let pixelated = print_image_pixelated(&img, 1, 0, Filter::Linear).unwrap();
    assert_eq!(pixelated, "");
}

#[test]
fn drop_set_suppresses_matching_characters() {
    // Ramp "AB ", drop "A": the black pixel's 'A' becomes a plain space,
    // the gray pixel's 'B' is unaffected. The two rows are identical, so
    // the nearest-filter resize to 2x1 keeps the column values exactly.
    let data: Vec<u8> = vec![
        0, 0, 0, 255, 128, 128, 128, 255, //
        0, 0, 0, 255, 128, 128, 128, 255,
    ];
    let img = dyn_rgba(2, 2, data);
    let out =
        print_image_with_ramp(&img, 2, 0, "AB ", Filter::Nearest, Some("A".to_string())).unwrap();
    let expected = format!(" {}\n", styled('B', 128, 128, 128));
    assert_eq!(out, expected);
}

#[test]
fn without_drop_set_characters_are_colorized() {
    let data: Vec<u8> = vec![
        0, 0, 0, 255, 128, 128, 128, 255, //
        0, 0, 0, 255, 128, 128, 128, 255,
    ];
    let img = dyn_rgba(2, 2, data);
    let out = print_image_with_ramp(&img, 2, 0, "AB ", Filter::Nearest, None).unwrap();
    let expected = format!("{}{}\n", styled('A', 0, 0, 0), styled('B', 128, 128, 128));
    assert_eq!(out, expected);
}

#[test]
fn pixelated_mode_ignores_the_ramp_and_emits_blocks() {
    let data: Vec<u8> = vec![
        0, 0, 0, 255, 128, 128, 128, 255, //
        0, 0, 0, 255, 128, 128, 128, 255,
    ];
    let img = dyn_rgba(2, 2, data);
    let out = print_image_pixelated(&img, 2, 0, Filter::Nearest).unwrap();
    let expected = format!(
        "{}{}\n",
        styled('\u{2588}', 0, 0, 0),
        styled('\u{2588}', 128, 128, 128)
    );
    assert_eq!(out, expected);
}

#[test]
fn output_is_ansi_styled() {
    let img = dyn_rgba(1, 1, vec![10, 20, 30, 255]);
    let out = print_image_with_ramp(&img, 2, 0, "#", Filter::Nearest, None).unwrap();
    assert!(out.contains('\u{1b}'));
    assert!(out.contains('#'));
}

#[test]
fn empty_ramp_is_a_configuration_error() {
    let img = dyn_rgba(1, 1, vec![0, 0, 0, 255]);
    let r = print_image_with_ramp(&img, 10, 0, "", Filter::Linear, None);
    assert!(matches!(r, Err(AsciiError::ConfigurationError)));
}

#[test]
fn zero_width_is_a_configuration_error() {
    let img = dyn_rgba(1, 1, vec![0, 0, 0, 255]);
    let r = print_image_with_ramp(&img, 0, 0, "# ", Filter::Linear, None);
    assert!(matches!(r, Err(AsciiError::ConfigurationError)));
    let p = print_image_pixelated(&img, 0, 0, Filter::Linear);
    assert!(matches!(p, Err(AsciiError::ConfigurationError)));
}

#[test]
fn degenerate_image_is_a_decode_error() {
    let img = image::DynamicImage::new_rgba8(0, 0);
    let r = print_image_with_ramp(&img, 10, 0, "# ", Filter::Linear, None);
    assert!(matches!(r, Err(AsciiError::DecodeError)));
    let p = print_image_pixelated(&img, 10, 0, Filter::Nearest);
    assert!(matches!(p, Err(AsciiError::DecodeError)));
}

#[test]
fn render_image_walks_rows_and_columns() {
    // A 1x2 image rendered directly: one glyph per row, a line break after
    // each row.
    let img = Img {
        width: 1,
        height: 2,
        data: vec![0, 0, 0, 0, 255, 255, 255, 255],
    };
    let ramp = CharacterRamp::new("#.").unwrap();
    let mode = RenderMode::Ramp { ramp, drop: Vec::new() };
    let out = render_image(&img, &mode);
    let expected = format!(" \n{}\n", styled('.', 255, 255, 255));
    assert_eq!(out, expected);
}
