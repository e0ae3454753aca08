//! Edits of an existing image, made by the `image` crate.
use vstd::prelude::*;

use crate::cli::{Command, Rotation};
use image::{ColorType, DynamicImage};

verus! {

/// A decoded image of any pixel layout; opaque here.
#[verifier::external_type_specification]
#[verifier::external_body]
pub struct ExDynamicImage(DynamicImage);

/// The pixel layout of an image.
#[verifier::external_type_specification]
pub struct ExColorType(ColorType);

/// The pixel layout of an image.
pub uninterp spec fn color_of(img: DynamicImage) -> ColorType;

/// The image brightened by an amount.
pub uninterp spec fn brightened(img: DynamicImage, value: i32) -> DynamicImage;

/// The cut-out of an image at `x`, `y` of `width` × `height`, clamped to the image.
pub uninterp spec fn cropped(img: DynamicImage, x: u32, y: u32, width: u32, height: u32) -> DynamicImage;

/// The grey version of an image.
pub uninterp spec fn grayed(img: DynamicImage) -> DynamicImage;

/// The image with each colour channel inverted.
pub uninterp spec fn inverted(img: DynamicImage) -> DynamicImage;

/// The image turned a quarter clockwise.
pub uninterp spec fn turned90(img: DynamicImage) -> DynamicImage;

/// The image turned by half a turn.
pub uninterp spec fn turned180(img: DynamicImage) -> DynamicImage;

/// The image turned three quarters clockwise.
pub uninterp spec fn turned270(img: DynamicImage) -> DynamicImage;

/// Relies on `DynamicImage::color`: the pixel layout, read from the variant alone.
pub assume_specification[ DynamicImage::color ](img: &DynamicImage) -> (r: ColorType)
    ensures
        r == color_of(*img),
;

/// Relies on `DynamicImage::brighten`: adds the amount to each colour channel
/// and clamps. It widens each channel to `i32` before adding, which overflows
/// for amounts near the ends of `i32`, and fails on floating-point channels
/// outside the `i32` range; both are kept out.
pub assume_specification[ DynamicImage::brighten ](img: &DynamicImage, value: i32) -> (r: DynamicImage)
    requires
        -65535 <= value <= 65535,
        color_of(*img) != ColorType::Rgb32F,
        color_of(*img) != ColorType::Rgba32F,
    ensures
        r == brightened(*img, value),
;

/// Relies on `DynamicImage::crop`: copies out the rectangle, clamped to the
/// image, and leaves the image as it was.
pub assume_specification[ DynamicImage::crop ](
    img: &mut DynamicImage,
    x: u32,
    y: u32,
    width: u32,
    height: u32,
) -> (r: DynamicImage)
    ensures
        r == cropped(*old(img), x, y, width, height),
        *final(img) == *old(img),
;

/// Relies on `DynamicImage::grayscale`: the grey version of the image.
pub assume_specification[ DynamicImage::grayscale ](img: &DynamicImage) -> (r: DynamicImage)
    ensures
        r == grayed(*img),
;

/// Relies on `DynamicImage::invert`: inverts each colour channel in place.
pub assume_specification[ DynamicImage::invert ](img: &mut DynamicImage)
    ensures
        *final(img) == inverted(*old(img)),
;

/// Relies on `DynamicImage::rotate90`: a quarter turn clockwise.
pub assume_specification[ DynamicImage::rotate90 ](img: &DynamicImage) -> (r: DynamicImage)
    ensures
        r == turned90(*img),
;

/// Relies on `DynamicImage::rotate180`: a half turn.
pub assume_specification[ DynamicImage::rotate180 ](img: &DynamicImage) -> (r: DynamicImage)
    ensures
        r == turned180(*img),
;

/// Relies on `DynamicImage::rotate270`: three quarter turns clockwise.
pub assume_specification[ DynamicImage::rotate270 ](img: &DynamicImage) -> (r: DynamicImage)
    ensures
        r == turned270(*img),
;

/// Whether an image stores its channels as floating-point numbers.
pub open spec fn has_float_channels(img: DynamicImage) -> bool {
    color_of(img) == ColorType::Rgb32F || color_of(img) == ColorType::Rgba32F
}

/// A brightness amount limited to ±65535. No channel of an 8- or 16-bit
/// image reaches 65535 from 0 or 0 from 65535, so the limit leaves the
/// brightened image as it is.
pub open spec fn limited_amount(amount: i32) -> i32 {
    if amount > 65535 {
        65535i32
    } else if amount < -65535 {
        -65535i32
    } else {
        amount
    }
}

/// What a command makes of `img`: the edited image, or `None` for a command
/// that makes a new picture, for `blur`, whose amount is a floating-point
/// number, and for brightening an image with floating-point channels.
pub open spec fn applied(command: Command, img: DynamicImage) -> Option<DynamicImage> {
    match command {
        Command::Brighten { amount, .. } => if has_float_channels(img) {
            None
        } else {
            Some(brightened(img, limited_amount(amount)))
        },
        Command::Crop { x, y, width, height, .. } => Some(cropped(img, x, y, width, height)),
        Command::Grayscale { .. } => Some(grayed(img)),
        Command::Invert { .. } => Some(inverted(img)),
        Command::Rotate { rotation, .. } => Some(
            match rotation {
                Rotation::Quarter => turned90(img),
                Rotation::Half => turned180(img),
                Rotation::ThreeQuarters => turned270(img),
            },
        ),
        _ => None,
    }
}

/// Applies a command's edit to `img`.
pub fn apply(command: &Command, img: DynamicImage) -> (r: Option<DynamicImage>)
    ensures
        r == applied(*command, img),
{
    let mut img = img;
    match command {
        Command::Brighten { amount, .. } => {
            let layout = img.color();
            match layout {
                ColorType::Rgb32F | ColorType::Rgba32F => None,
                _ => {
                    let value: i32 = if *amount > 65535 {
                        65535
                    } else if *amount < -65535 {
                        -65535
                    } else {
                        *amount
                    };
                    Some(img.brighten(value))
                },
            }
        },
        Command::Crop { x, y, width, height, .. } => Some(img.crop(*x, *y, *width, *height)),
        Command::Grayscale { .. } => Some(img.grayscale()),
        Command::Invert { .. } => {
            img.invert();
            Some(img)
        },
        Command::Rotate { rotation, .. } => Some(
            match rotation {
                Rotation::Quarter => img.rotate90(),
                Rotation::Half => img.rotate180(),
                Rotation::ThreeQuarters => img.rotate270(),
            },
        ),
        _ => None,
    }
}

} // verus!
