//! Trusted wrappers around the image operations of the `image` crate (re-exported by
//! `imageproc`) that marker reading uses, with their results stated over [`Grid`].
use vstd::prelude::*;

use crate::grid::{GrayImage, Grid};

verus! {

/// A quarter turn clockwise: the result is `height` wide and `width` tall, and its pixel at
/// `(x, y)` is the source pixel at `(y, height - 1 - x)`.
pub open spec fn rotated90(g: Grid) -> Grid {
    Grid {
        width: g.height,
        height: g.width,
        pixels: Seq::new(
            g.width * g.height,
            |i: int| g.at(i / (g.height as int), g.height - 1 - i % (g.height as int)),
        ),
    }
}

/// A half turn: same dimensions, and the pixel at `(x, y)` is the source pixel at
/// `(width - 1 - x, height - 1 - y)`.
pub open spec fn rotated180(g: Grid) -> Grid {
    Grid {
        width: g.width,
        height: g.height,
        pixels: Seq::new(
            g.width * g.height,
            |i: int| g.at(g.width - 1 - i % (g.width as int), g.height - 1 - i / (g.width as int)),
        ),
    }
}

/// Three quarter turns clockwise: the result is `height` wide and `width` tall, and its pixel
/// at `(x, y)` is the source pixel at `(width - 1 - y, x)`.
pub open spec fn rotated270(g: Grid) -> Grid {
    Grid {
        width: g.height,
        height: g.width,
        pixels: Seq::new(
            g.width * g.height,
            |i: int| g.at(g.width - 1 - i / (g.height as int), i % (g.height as int)),
        ),
    }
}

/// The region of `g` that starts at `(x, y)` and is at most `width` x `height`, cut down to
/// the part that lies inside `g`.
pub open spec fn cropped(g: Grid, x: nat, y: nat, width: nat, height: nat) -> Grid {
    let x0: nat = if x <= g.width { x } else { g.width };
    let y0: nat = if y <= g.height { y } else { g.height };
    let w: nat = if width <= g.width - x0 { width } else { (g.width - x0) as nat };
    let h: nat = if height <= g.height - y0 { height } else { (g.height - y0) as nat };
    Grid {
        width: w,
        height: h,
        pixels: Seq::new(w * h, |i: int| g.at(x0 + i % (w as int), y0 + i / (w as int))),
    }
}

/// The pixels that nearest-neighbour resampling of `image` to `new_width` x `new_height`
/// gives, row-major.
pub uninterp spec fn nearest_resized(image: Grid, new_width: u32, new_height: u32) -> Seq<u8>;

/// Calls `imageops::rotate90_in` of the `image` crate into a fresh buffer of the turned
/// dimensions. Its source writes the pixel at `(x, y)` to `(height - 1 - y, x)` for every
/// pixel, which is `rotated90`.
#[verifier::external_body]
pub(crate) fn rotate90(image: &GrayImage) -> (out: GrayImage)
    ensures
        out@ == rotated90(image@),
{
    let src = imageproc::image::GrayImage::from_raw(image.width, image.height, image.pixels.clone())
        .unwrap();
    let mut dest = imageproc::image::GrayImage::new(image.height, image.width);
    let _ = imageproc::image::imageops::rotate90_in(&src, &mut dest);
    GrayImage { width: dest.width(), height: dest.height(), pixels: dest.into_raw() }
}

/// Calls `imageops::rotate180_in` of the `image` crate into a fresh buffer of the same
/// dimensions. Its source writes the pixel at `(x, y)` to `(width - 1 - x, height - 1 - y)`
/// for every pixel, which is `rotated180`.
#[verifier::external_body]
pub(crate) fn rotate180(image: &GrayImage) -> (out: GrayImage)
    ensures
        out@ == rotated180(image@),
{
    let src = imageproc::image::GrayImage::from_raw(image.width, image.height, image.pixels.clone())
        .unwrap();
    let mut dest = imageproc::image::GrayImage::new(image.width, image.height);
    let _ = imageproc::image::imageops::rotate180_in(&src, &mut dest);
    GrayImage { width: dest.width(), height: dest.height(), pixels: dest.into_raw() }
}

/// Calls `imageops::rotate270_in` of the `image` crate into a fresh buffer of the turned
/// dimensions. Its source writes the pixel at `(x, y)` to `(y, width - 1 - x)` for every
/// pixel, which is `rotated270`.
#[verifier::external_body]
pub(crate) fn rotate270(image: &GrayImage) -> (out: GrayImage)
    ensures
        out@ == rotated270(image@),
{
    let src = imageproc::image::GrayImage::from_raw(image.width, image.height, image.pixels.clone())
        .unwrap();
    let mut dest = imageproc::image::GrayImage::new(image.height, image.width);
    let _ = imageproc::image::imageops::rotate270_in(&src, &mut dest);
    GrayImage { width: dest.width(), height: dest.height(), pixels: dest.into_raw() }
}

/// Calls `imageops::crop_imm` of the `image` crate and copies the view out with
/// `SubImage::to_image`. The source clamps the region to the image (`crop_dimms`) and copies
/// each pixel of the region, which is `cropped`.
#[verifier::external_body]
pub(crate) fn crop(image: &GrayImage, x: u32, y: u32, width: u32, height: u32) -> (out: GrayImage)
    ensures
        out@ == cropped(image@, x as nat, y as nat, width as nat, height as nat),
{
    let src = imageproc::image::GrayImage::from_raw(image.width, image.height, image.pixels.clone())
        .unwrap();
    let sub = imageproc::image::imageops::crop_imm(&src, x, y, width, height).to_image();
    GrayImage { width: sub.width(), height: sub.height(), pixels: sub.into_raw() }
}

/// Calls `imageops::resize` of the `image` crate with `FilterType::Nearest`. The source returns
/// a buffer of exactly `new_width` x `new_height`; what the resampling puts in it is named
/// `nearest_resized` and not stated here.
#[verifier::external_body]
pub(crate) fn resize_nearest(image: &GrayImage, new_width: u32, new_height: u32) -> (out: GrayImage)
    requires
        new_width as int * new_height as int <= usize::MAX,
    ensures
        out@ == (Grid {
            width: new_width as nat,
            height: new_height as nat,
            pixels: nearest_resized(image@, new_width, new_height),
        }),
{
    let src = imageproc::image::GrayImage::from_raw(image.width, image.height, image.pixels.clone())
        .unwrap();
    let out = imageproc::image::imageops::resize(
        &src,
        new_width,
        new_height,
        imageproc::image::imageops::FilterType::Nearest,
    );
    GrayImage { width: out.width(), height: out.height(), pixels: out.into_raw() }
}

} // verus!
