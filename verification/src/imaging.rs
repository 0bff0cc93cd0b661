//! What this library takes on trust of the `image` crate: the image type,
//! names for what an image holds, and a contract for each method that the
//! operations call. Nothing here is proved.

use crate::raster::{clamp, crop_length, crop_start, luma, ColorKind, Raster};
use image::{ColorType, DynamicImage, GenericImage, Rgba};
use vstd::prelude::*;

verus! {

/// `image::DynamicImage`, an image of one of several sample layouts. What
/// it holds is spoken of through the four names below.
#[verifier::external_type_specification]
#[verifier::external_body]
pub struct ExDynamicImage(DynamicImage);

/// The sample layout of `img`: what `DynamicImage::color` reports.
pub uninterp spec fn image_kind(img: DynamicImage) -> ColorKind;

/// The number of columns of `img`: what `DynamicImage::width` reports.
pub uninterp spec fn image_width(img: DynamicImage) -> nat;

/// The number of rows of `img`: what `DynamicImage::height` reports.
pub uninterp spec fn image_height(img: DynamicImage) -> nat;

/// The sample that `img` stores for channel `c` of the pixel at column `x`,
/// row `y`: its value where samples are integers, its bit pattern where they
/// are floating-point numbers.
pub uninterp spec fn image_sample(img: DynamicImage, x: int, y: int, c: int) -> int;

/// Whether `(x, y, c)` is a channel of a pixel of `img`.
pub open spec fn in_image(img: DynamicImage, x: int, y: int, c: int) -> bool {
    0 <= x < image_width(img) && 0 <= y < image_height(img) && 0 <= c < image_kind(img).channels()
}

/// The raster that `img` holds.
pub open spec fn raster(img: DynamicImage) -> Raster {
    Raster::new(
        image_kind(img),
        image_width(img),
        image_height(img),
        |x: int, y: int, c: int| image_sample(img, x, y, c),
    )
}

/// `DynamicImage::color`, with the crate's `ColorType` turned into a
/// `ColorKind`: the layout of `img`.
#[verifier::external_body]
pub(crate) fn kind_of(img: &DynamicImage) -> (kind: ColorKind)
    ensures
        kind == image_kind(*img),
{
    match img.color() {
        ColorType::L8 => ColorKind::L8,
        ColorType::La8 => ColorKind::La8,
        ColorType::Rgb8 => ColorKind::Rgb8,
        ColorType::Rgba8 => ColorKind::Rgba8,
        ColorType::L16 => ColorKind::L16,
        ColorType::La16 => ColorKind::La16,
        ColorType::Rgb16 => ColorKind::Rgb16,
        ColorType::Rgba16 => ColorKind::Rgba16,
        ColorType::Rgb32F => ColorKind::Rgb32F,
        ColorType::Rgba32F => ColorKind::Rgba32F,
        _ => ColorKind::Other,
    }
}

/// Whether the `image` crate can walk over the pixels of `img` row by row.
/// Its walk asks for the first pixel of the second row of an image that has
/// no columns, and so fails on such an image with two rows or more.
pub open spec fn is_walkable(img: DynamicImage) -> bool {
    image_width(img) > 0 || image_height(img) <= 1
}

/// `DynamicImage::width` is the number of columns of the image.
pub assume_specification[ DynamicImage::width ](img: &DynamicImage) -> (w: u32)
    ensures
        w == image_width(*img),
;

/// `DynamicImage::height` is the number of rows of the image.
pub assume_specification[ DynamicImage::height ](img: &DynamicImage) -> (h: u32)
    ensures
        h == image_height(*img),
;

/// `DynamicImage::new_rgb8` makes an 8-bit colour image of `w` by `h` pixels
/// with every sample 0. It counts the samples of a row and then those of the
/// image in `usize` and panics where one of the two does not fit, or where
/// the samples are more than a vector holds.
pub assume_specification[ DynamicImage::new_rgb8 ](w: u32, h: u32) -> (out: DynamicImage)
    requires
        3 * w <= usize::MAX,
        3 * w * h <= isize::MAX,
    ensures
        image_kind(out) == ColorKind::Rgb8,
        image_width(out) == w,
        image_height(out) == h,
        forall|x: int, y: int, c: int|
            in_image(out, x, y, c) ==> #[trigger] image_sample(out, x, y, c) == 0,
;

/// `GenericImage::put_pixel` on an 8-bit colour image stores the three
/// colour samples of the pixel it is given at `(x, y)` and leaves the rest
/// of the image as it was. It panics where `(x, y)` is outside the image.
#[verifier::external_body]
pub(crate) fn put_rgb(img: &mut DynamicImage, x: u32, y: u32, red: u8, green: u8, blue: u8)
    requires
        image_kind(*old(img)) == ColorKind::Rgb8,
        x < image_width(*old(img)),
        y < image_height(*old(img)),
    ensures
        image_kind(*final(img)) == ColorKind::Rgb8,
        image_width(*final(img)) == image_width(*old(img)),
        image_height(*final(img)) == image_height(*old(img)),
        image_sample(*final(img), x as int, y as int, 0) == red,
        image_sample(*final(img), x as int, y as int, 1) == green,
        image_sample(*final(img), x as int, y as int, 2) == blue,
        forall|i: int, j: int, c: int|
            in_image(*old(img), i, j, c) && !(i == x && j == y) ==> #[trigger] image_sample(
                *final(img),
                i,
                j,
                c,
            ) == image_sample(*old(img), i, j, c),
{
    img.put_pixel(x, y, Rgba([red, green, blue, 255]));
}

/// `DynamicImage::rotate90` turns the image a quarter turn clockwise: the
/// pixel at `(x, y)` goes to column `height - 1 - y`, row `x` of an image of
/// the same kind that is as wide as this one is high. The new image counts
/// the samples of a row, of which it has as many as this one has in a
/// column, in `usize`, and panics where they do not fit.
pub assume_specification[ DynamicImage::rotate90 ](img: &DynamicImage) -> (out: DynamicImage)
    requires
        image_kind(*img).channels() * image_height(*img) <= usize::MAX,
    ensures
        image_kind(out) == image_kind(*img),
        image_width(out) == image_height(*img),
        image_height(out) == image_width(*img),
        forall|x: int, y: int, c: int|
            in_image(*img, x, y, c) ==> image_sample(out, image_height(*img) - 1 - y, x, c)
                == #[trigger] image_sample(*img, x, y, c),
;

/// `DynamicImage::rotate180` turns the image half a turn: the pixel at
/// `(x, y)` goes to column `width - 1 - x`, row `height - 1 - y` of an image
/// of the same kind and size.
pub assume_specification[ DynamicImage::rotate180 ](img: &DynamicImage) -> (out: DynamicImage)
    ensures
        image_kind(out) == image_kind(*img),
        image_width(out) == image_width(*img),
        image_height(out) == image_height(*img),
        forall|x: int, y: int, c: int|
            in_image(*img, x, y, c) ==> image_sample(
                out,
                image_width(*img) - 1 - x,
                image_height(*img) - 1 - y,
                c,
            ) == #[trigger] image_sample(*img, x, y, c),
;

/// `DynamicImage::rotate270` turns the image three quarter turns clockwise:
/// the pixel at `(x, y)` goes to column `y`, row `width - 1 - x` of an image
/// of the same kind that is as wide as this one is high. As for a quarter
/// turn, the samples of a row of the new image must fit `usize`.
pub assume_specification[ DynamicImage::rotate270 ](img: &DynamicImage) -> (out: DynamicImage)
    requires
        image_kind(*img).channels() * image_height(*img) <= usize::MAX,
    ensures
        image_kind(out) == image_kind(*img),
        image_width(out) == image_height(*img),
        image_height(out) == image_width(*img),
        forall|x: int, y: int, c: int|
            in_image(*img, x, y, c) ==> image_sample(out, y, image_width(*img) - 1 - x, c)
                == #[trigger] image_sample(*img, x, y, c),
;

/// `DynamicImage::crop_imm` copies a rectangle out of the image. It first
/// moves a corner that lies outside the image to its edge and shortens the
/// rectangle to what the image holds. The pixel at `(i, j)` of the result is
/// the pixel of the image that lies `i` columns and `j` rows from that
/// corner.
pub assume_specification[ DynamicImage::crop_imm ](
    img: &DynamicImage,
    x: u32,
    y: u32,
    width: u32,
    height: u32,
) -> (out: DynamicImage)
    ensures
        image_kind(out) == image_kind(*img),
        image_width(out) == crop_length(x as int, width as int, image_width(*img) as int),
        image_height(out) == crop_length(y as int, height as int, image_height(*img) as int),
        forall|i: int, j: int, c: int|
            in_image(out, i, j, c) ==> #[trigger] image_sample(out, i, j, c) == image_sample(
                *img,
                crop_start(x as int, image_width(*img) as int) + i,
                crop_start(y as int, image_height(*img) as int) + j,
                c,
            ),
;

/// `DynamicImage::invert` keeps the kind and size of the image. In an image
/// of integer samples it replaces each sample but alpha by the largest
/// sample value less that sample.
pub assume_specification[ DynamicImage::invert ](img: &mut DynamicImage)
    ensures
        image_kind(*final(img)) == image_kind(*old(img)),
        image_width(*final(img)) == image_width(*old(img)),
        image_height(*final(img)) == image_height(*old(img)),
        image_kind(*old(img)).is_integer() ==> forall|x: int, y: int, c: int|
            in_image(*old(img), x, y, c) ==> #[trigger] image_sample(*final(img), x, y, c) == (if c
                < image_kind(*old(img)).color_channels() {
                image_kind(*old(img)).max_sample() - image_sample(*old(img), x, y, c)
            } else {
                image_sample(*old(img), x, y, c)
            }),
;

/// `DynamicImage::brighten` makes an image of the same kind and size in
/// which `value` is added to each sample but alpha, the sum kept between 0
/// and the largest sample value. The sum is made in `i32` and must fit; the
/// samples must be integers, since the method panics on floating-point
/// samples that no `i32` holds; and it walks over the pixels.
pub assume_specification[ DynamicImage::brighten ](img: &DynamicImage, value: i32) -> (out:
    DynamicImage)
    requires
        image_kind(*img).is_integer(),
        value + image_kind(*img).max_sample() <= i32::MAX,
        is_walkable(*img),
    ensures
        image_kind(out) == image_kind(*img),
        image_width(out) == image_width(*img),
        image_height(out) == image_height(*img),
        forall|x: int, y: int, c: int|
            in_image(*img, x, y, c) ==> #[trigger] image_sample(out, x, y, c) == (if c
                < image_kind(*img).color_channels() {
                clamp(
                    image_sample(*img, x, y, c) + value,
                    0,
                    image_kind(*img).max_sample(),
                )
            } else {
                image_sample(*img, x, y, c)
            }),
;

/// `DynamicImage::grayscale` makes an image of the same size and of the
/// luminance kind that goes with this one. Where the samples are integers,
/// the first sample of each pixel is the pixel's luminance: the sample
/// itself in a luminance image, `(2126 r + 7152 g + 722 b) / 10000` in a
/// colour image. The second sample, where there is one, is the alpha of the
/// pixel. An 8-bit or 16-bit luminance image without alpha is copied; any
/// other is walked over.
pub assume_specification[ DynamicImage::grayscale ](img: &DynamicImage) -> (out: DynamicImage)
    requires
        image_kind(*img) == ColorKind::L8 || image_kind(*img) == ColorKind::L16 || is_walkable(
            *img,
        ),
    ensures
        image_kind(out) == image_kind(*img).gray(),
        image_width(out) == image_width(*img),
        image_height(out) == image_height(*img),
        image_kind(*img).is_integer() ==> forall|x: int, y: int, c: int|
            in_image(out, x, y, c) ==> #[trigger] image_sample(out, x, y, c) == (if c != 0 {
                image_sample(*img, x, y, image_kind(*img).channels() - 1)
            } else if image_kind(*img).has_color() {
                luma(
                    image_sample(*img, x, y, 0),
                    image_sample(*img, x, y, 1),
                    image_sample(*img, x, y, 2),
                )
            } else {
                image_sample(*img, x, y, 0)
            }),
;

} // verus!
