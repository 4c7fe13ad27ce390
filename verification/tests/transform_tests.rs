use im2as::img::Img;
use im2as::transform::{adjust_contrast, scale_and_resize_img_fixed_width, target_height, Filter};

fn img_from(width: u32, height: u32, data: Vec<u8>) -> Img {
    assert_eq!(data.len() as u64, 4 * width as u64 * height as u64);
    Img { width, height, data }
}

#[test]
fn target_height_halves_for_square_images() {
    // A square image at width W: W * H / (2 * W) = H / 2 rows.
    assert_eq!(target_height(100, 100, 80), 40);
    assert_eq!(target_height(2, 2, 2), 1);
}

#[test]
fn target_height_truncates() {
    // 80 * 50 / (2 * 100) = 20; 10 * 3 / (2 * 4) = 3 (3.75 truncated).
    assert_eq!(target_height(100, 50, 80), 20);
    assert_eq!(target_height(4, 3, 10), 3);
}

#[test]
fn target_height_truncates_to_zero_rows() {
    // 10 * 1 / (2 * 100) rounds down to no rows at all.
    assert_eq!(target_height(100, 1, 10), 0);
    // 1 * 1 / (2 * 1) likewise.
    assert_eq!(target_height(1, 1, 1), 0);
}

#[test]
fn resize_produces_exactly_the_requested_width() {
    // 4x4 opaque gray image resized to 2 columns: 2 * 4 / (2 * 4) = 1 row.
    let data = vec![128u8; 4 * 4 * 4];
    let img = img_from(4, 4, data);
    let out = scale_and_resize_img_fixed_width(img, 2, Filter::Nearest);
    assert_eq!(out.width, 2);
    assert_eq!(out.height, 1);
    assert_eq!(out.data.len(), 4 * 2 * 1);
}

#[test]
fn resize_keeps_uniform_color() {
    let data = vec![77u8; 4 * 6 * 6];
    let img = img_from(6, 6, data);
    let out = scale_and_resize_img_fixed_width(img, 3, Filter::Linear);
    assert_eq!((out.width, out.height), (3, 1));
    // A uniform image stays uniform under any resampling kernel.
    for b in &out.data {
        assert_eq!(*b, 77u8);
    }
}

#[test]
fn contrast_zero_is_a_no_op() {
    let data: Vec<u8> = vec![10, 20, 30, 40, 200, 150, 100, 50];
    let img = img_from(2, 1, data.clone());
    let out = adjust_contrast(img, 0);
    assert_eq!(out.width, 2);
    assert_eq!(out.height, 1);
    assert_eq!(out.data, data);
}

#[test]
fn contrast_changes_colors_but_not_alpha() {
    let data: Vec<u8> = vec![10, 20, 30, 40, 200, 150, 100, 50];
    let img = img_from(2, 1, data.clone());
    let out = adjust_contrast(img, 50);
    // Alpha bytes are untouched.
    assert_eq!(out.data[3], 40);
    assert_eq!(out.data[7], 50);
    // The color channels went through a real contrast stretch.
    assert_ne!(
        (out.data[0], out.data[1], out.data[2], out.data[4], out.data[5], out.data[6]),
        (data[0], data[1], data[2], data[4], data[5], data[6])
    );
}

#[test]
fn contrast_matches_image_crate_on_colors() {
    let data: Vec<u8> = vec![10, 20, 30, 255, 200, 150, 100, 255];
    let img = img_from(2, 1, data.clone());
    let out = adjust_contrast(img, 25);
    let buf: image::RgbaImage = image::ImageBuffer::from_raw(2, 1, data).unwrap();
    let expected = image::imageops::contrast(&buf, 25.0).into_raw();
    // Color channels agree with the crate; alpha is restored from the input.
    for i in 0..8 {
        if i % 4 != 3 {
            assert_eq!(out.data[i], expected[i]);
        } else {
            assert_eq!(out.data[i], 255);
        }
    }
}
