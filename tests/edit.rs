use image::{DynamicImage, GenericImageView, Rgb, RgbImage};
use image_utils::cli::{Command, Rotation};
use image_utils::edit::apply;

fn sample() -> DynamicImage {
    let mut img = RgbImage::new(4, 2);
    img.put_pixel(0, 0, Rgb([10, 20, 30]));
    DynamicImage::ImageRgb8(img)
}

fn paths() -> (String, String) {
    ("in.png".to_string(), "out.png".to_string())
}

#[test]
fn rotate_quarter_swaps_sides() {
    let (input, output) = paths();
    let cmd = Command::Rotate { rotation: Rotation::Quarter, input, output };
    let out = apply(&cmd, sample()).unwrap();
    assert_eq!(out.dimensions(), (2, 4));
    let (input, output) = paths();
    let cmd = Command::Rotate { rotation: Rotation::Half, input, output };
    assert_eq!(apply(&cmd, sample()).unwrap().dimensions(), (4, 2));
}

#[test]
fn crop_cuts_the_rectangle() {
    let (input, output) = paths();
    let cmd = Command::Crop { x: 1, y: 0, width: 2, height: 2, input, output };
    assert_eq!(apply(&cmd, sample()).unwrap().dimensions(), (2, 2));
}

#[test]
fn invert_inverts_channels() {
    let (input, output) = paths();
    let out = apply(&Command::Invert { input, output }, sample()).unwrap();
    assert_eq!(out.to_rgb8().get_pixel(0, 0), &Rgb([245, 235, 225]));
}

#[test]
fn brighten_and_grayscale_change_pixels() {
    let (input, output) = paths();
    let out = apply(&Command::Brighten { amount: 5, input, output }, sample()).unwrap();
    assert_eq!(out.to_rgb8().get_pixel(0, 0), &Rgb([15, 25, 35]));
    let (input, output) = paths();
    let grey = apply(&Command::Grayscale { input, output }, sample()).unwrap();
    let p = grey.to_rgb8().get_pixel(0, 0).0;
    assert_eq!(p[0], p[1]);
    assert_eq!(p[1], p[2]);
}

#[test]
fn picture_commands_are_not_edits() {
    assert!(apply(&Command::Fractal { output: "f.png".to_string() }, sample()).is_none());
    let (input, output) = paths();
    assert!(apply(&Command::Blur { amount: "1".to_string(), input, output }, sample()).is_none());
}

#[test]
fn brighten_takes_extreme_amounts() {
    let (input, output) = paths();
    let out = apply(&Command::Brighten { amount: i32::MAX, input, output }, sample()).unwrap();
    assert_eq!(out.to_rgb8().get_pixel(0, 0), &Rgb([255, 255, 255]));
    let (input, output) = paths();
    let out = apply(&Command::Brighten { amount: i32::MIN, input, output }, sample()).unwrap();
    assert_eq!(out.to_rgb8().get_pixel(1, 1), &Rgb([0, 0, 0]));
}

#[test]
fn brighten_leaves_float_images_alone() {
    let float = DynamicImage::ImageRgb32F(image::Rgb32FImage::new(2, 2));
    let (input, output) = paths();
    assert!(apply(&Command::Brighten { amount: 5, input, output }, float).is_none());
    let (input, output) = paths();
    let float = DynamicImage::ImageRgb32F(image::Rgb32FImage::new(2, 2));
    assert!(apply(&Command::Invert { input, output }, float).is_some());
}
