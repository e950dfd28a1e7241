//! The pixel operations the dispatcher delegates to the `image` crate.
//!
//! An image buffer is opaque to this library: the dispatcher only places
//! buffers in the store and routes them, it never reads pixels. Each
//! operation used by a command is a deterministic function of its arguments
//! alone, so each gets an uninterpreted name, and a trusted wrapper states
//! that the call returns that named value. Operations with floating-point
//! parameters (blur, unsharpen, filter3x3, contrast) cannot be wrapped here
//! and are applied by the caller of the library; the dispatcher hands them
//! out as pending work and takes the finished buffer back.

use vstd::prelude::*;
use crate::protocol::FilterKind;
use image::GenericImage;

verus! {

#[verifier::external_type_specification]
#[verifier::external_body]
pub struct ExDynamicImage(image::DynamicImage);

pub uninterp spec fn cropped_of(
    img: image::DynamicImage,
    x: u32,
    y: u32,
    w: u32,
    h: u32,
) -> image::DynamicImage;

pub uninterp spec fn flip_h_of(img: image::DynamicImage) -> image::DynamicImage;

pub uninterp spec fn flip_v_of(img: image::DynamicImage) -> image::DynamicImage;

pub uninterp spec fn rot90_of(img: image::DynamicImage) -> image::DynamicImage;

pub uninterp spec fn rot180_of(img: image::DynamicImage) -> image::DynamicImage;

pub uninterp spec fn rot270_of(img: image::DynamicImage) -> image::DynamicImage;

pub uninterp spec fn inverted_of(img: image::DynamicImage) -> image::DynamicImage;

pub uninterp spec fn grayscale_of(img: image::DynamicImage) -> image::DynamicImage;

pub uninterp spec fn brightened_of(img: image::DynamicImage, value: i32) -> image::DynamicImage;

pub uninterp spec fn huerotated_of(img: image::DynamicImage, value: i32) -> image::DynamicImage;

pub uninterp spec fn resized_of(
    img: image::DynamicImage,
    w: u32,
    h: u32,
    k: FilterKind,
) -> image::DynamicImage;

pub uninterp spec fn resize_exact_of(
    img: image::DynamicImage,
    w: u32,
    h: u32,
    k: FilterKind,
) -> image::DynamicImage;

pub uninterp spec fn resize_fill_of(
    img: image::DynamicImage,
    w: u32,
    h: u32,
    k: FilterKind,
) -> image::DynamicImage;

pub uninterp spec fn thumbnail_of(img: image::DynamicImage, w: u32, h: u32) -> image::DynamicImage;

pub uninterp spec fn thumbnail_exact_of(
    img: image::DynamicImage,
    w: u32,
    h: u32,
) -> image::DynamicImage;

pub uninterp spec fn new_rgb_of(w: u32, h: u32) -> image::DynamicImage;

/// What `GenericImage::copy_from` leaves behind: the destination buffer after
/// the copy, and whether the source fit at the given offset.
pub uninterp spec fn copy_into_of(
    dst: image::DynamicImage,
    src: image::DynamicImage,
    x: u32,
    y: u32,
) -> (image::DynamicImage, bool);

/// Relies on `DynamicImage::crop_imm`: the cut-out delimited by the given
/// rectangle, a function of the image and the rectangle alone.
#[verifier::external_body]
pub(crate) fn crop_image(img: &image::DynamicImage, x: u32, y: u32, w: u32, h: u32) -> (r:
    image::DynamicImage)
    ensures
        r == cropped_of(*img, x, y, w, h),
{
    img.crop_imm(x, y, w, h)
}

/// Relies on `DynamicImage::fliph`.
#[verifier::external_body]
pub(crate) fn flip_h_image(img: &image::DynamicImage) -> (r: image::DynamicImage)
    ensures
        r == flip_h_of(*img),
{
    img.fliph()
}

/// Relies on `DynamicImage::flipv`.
#[verifier::external_body]
pub(crate) fn flip_v_image(img: &image::DynamicImage) -> (r: image::DynamicImage)
    ensures
        r == flip_v_of(*img),
{
    img.flipv()
}

/// Relies on `DynamicImage::rotate90`.
#[verifier::external_body]
pub(crate) fn rot90_image(img: &image::DynamicImage) -> (r: image::DynamicImage)
    ensures
        r == rot90_of(*img),
{
    img.rotate90()
}

/// Relies on `DynamicImage::rotate180`.
#[verifier::external_body]
pub(crate) fn rot180_image(img: &image::DynamicImage) -> (r: image::DynamicImage)
    ensures
        r == rot180_of(*img),
{
    img.rotate180()
}

/// Relies on `DynamicImage::rotate270`.
#[verifier::external_body]
pub(crate) fn rot270_image(img: &image::DynamicImage) -> (r: image::DynamicImage)
    ensures
        r == rot270_of(*img),
{
    img.rotate270()
}

/// Relies on `DynamicImage::clone` and `DynamicImage::invert`: the image with
/// every pixel inverted, the original left untouched.
#[verifier::external_body]
pub(crate) fn invert_image(img: &image::DynamicImage) -> (r: image::DynamicImage)
    ensures
        r == inverted_of(*img),
{
    let mut out = img.clone();
    out.invert();
    out
}

/// Relies on `DynamicImage::grayscale`.
#[verifier::external_body]
pub(crate) fn grayscale_image(img: &image::DynamicImage) -> (r: image::DynamicImage)
    ensures
        r == grayscale_of(*img),
{
    img.grayscale()
}

/// Relies on `DynamicImage::brighten`.
#[verifier::external_body]
pub(crate) fn brighten_image(img: &image::DynamicImage, value: i32) -> (r: image::DynamicImage)
    ensures
        r == brightened_of(*img, value),
{
    img.brighten(value)
}

/// Relies on `DynamicImage::huerotate`.
#[verifier::external_body]
pub(crate) fn huerotate_image(img: &image::DynamicImage, value: i32) -> (r: image::DynamicImage)
    ensures
        r == huerotated_of(*img, value),
{
    img.huerotate(value)
}

/// Relies on `DynamicImage::resize`: scaled to fit within the given bounds,
/// preserving the aspect ratio, with the named filter.
#[verifier::external_body]
pub(crate) fn resize_image(img: &image::DynamicImage, w: u32, h: u32, k: FilterKind) -> (r:
    image::DynamicImage)
    ensures
        r == resized_of(*img, w, h, k),
{
    let f = match k {
        FilterKind::Nearest => image::imageops::FilterType::Nearest,
        FilterKind::Triangle => image::imageops::FilterType::Triangle,
        FilterKind::CatmullRom => image::imageops::FilterType::CatmullRom,
        FilterKind::Gaussian => image::imageops::FilterType::Gaussian,
        FilterKind::Lanczos3 => image::imageops::FilterType::Lanczos3,
    };
    img.resize(w, h, f)
}

/// Relies on `DynamicImage::resize_exact`: scaled to exactly the given size.
#[verifier::external_body]
pub(crate) fn resize_exact_image(img: &image::DynamicImage, w: u32, h: u32, k: FilterKind) -> (r:
    image::DynamicImage)
    ensures
        r == resize_exact_of(*img, w, h, k),
{
    let f = match k {
        FilterKind::Nearest => image::imageops::FilterType::Nearest,
        FilterKind::Triangle => image::imageops::FilterType::Triangle,
        FilterKind::CatmullRom => image::imageops::FilterType::CatmullRom,
        FilterKind::Gaussian => image::imageops::FilterType::Gaussian,
        FilterKind::Lanczos3 => image::imageops::FilterType::Lanczos3,
    };
    img.resize_exact(w, h, f)
}

/// Relies on `DynamicImage::resize_to_fill`: scaled to fill the given size,
/// cropping the overhang.
#[verifier::external_body]
pub(crate) fn resize_fill_image(img: &image::DynamicImage, w: u32, h: u32, k: FilterKind) -> (r:
    image::DynamicImage)
    ensures
        r == resize_fill_of(*img, w, h, k),
{
    let f = match k {
        FilterKind::Nearest => image::imageops::FilterType::Nearest,
        FilterKind::Triangle => image::imageops::FilterType::Triangle,
        FilterKind::CatmullRom => image::imageops::FilterType::CatmullRom,
        FilterKind::Gaussian => image::imageops::FilterType::Gaussian,
        FilterKind::Lanczos3 => image::imageops::FilterType::Lanczos3,
    };
    img.resize_to_fill(w, h, f)
}

/// Relies on `DynamicImage::thumbnail`.
#[verifier::external_body]
pub(crate) fn thumbnail_image(img: &image::DynamicImage, w: u32, h: u32) -> (r:
    image::DynamicImage)
    ensures
        r == thumbnail_of(*img, w, h),
{
    img.thumbnail(w, h)
}

/// Relies on `DynamicImage::thumbnail_exact`.
#[verifier::external_body]
pub(crate) fn thumbnail_exact_image(img: &image::DynamicImage, w: u32, h: u32) -> (r:
    image::DynamicImage)
    ensures
        r == thumbnail_exact_of(*img, w, h),
{
    img.thumbnail_exact(w, h)
}

/// Relies on `RgbImage::new` (wrapped as a `DynamicImage`): a black image of
/// the given size.
#[verifier::external_body]
pub(crate) fn new_rgb_image(w: u32, h: u32) -> (r: image::DynamicImage)
    ensures
        r == new_rgb_of(w, h),
{
    image::DynamicImage::ImageRgb8(image::RgbImage::new(w, h))
}

/// Relies on `DynamicImage::clone`: a clone of plain pixel data equals the
/// original value.
#[verifier::external_body]
pub(crate) fn clone_image(img: &image::DynamicImage) -> (r: image::DynamicImage)
    ensures
        r == *img,
{
    img.clone()
}

/// Relies on `GenericImage::copy_from`: copies the source into the
/// destination with its top-left corner at the given offset; fails, leaving
/// the destination unchanged, when the source does not fit there.
#[verifier::external_body]
pub(crate) fn copy_into(
    dst: &mut image::DynamicImage,
    src: &image::DynamicImage,
    x: u32,
    y: u32,
) -> (ok: bool)
    ensures
        (*final(dst), ok) == copy_into_of(*old(dst), *src, x, y),
{
    dst.copy_from(src, x, y).is_ok()
}

} // verus!
