//! Images: what is handed to the face detector, and the cut-out that is
//! made around the face it found.
//!
//! An image is an `image::DynamicImage`. The library does not look inside
//! one: its size and its pixels are named here, and the calls into the
//! `image` crate are believed to act on them as stated below.

use crate::detection::{plan_crop, single_face, ValidationError};
use crate::geometry::{crop_for, BoundingBox};
use vstd::prelude::*;

verus! {

#[verifier::external_type_specification]
#[verifier::external_body]
pub struct ExDynamicImage(image::DynamicImage);

/// The width of an image in pixels, as `dimensions` gives it.
pub uninterp spec fn image_width(img: image::DynamicImage) -> int;

/// The height of an image in pixels, as `dimensions` gives it.
pub uninterp spec fn image_height(img: image::DynamicImage) -> int;

/// The pixel of an image in column `x` of row `y`, as red, green, blue and
/// alpha of eight bits each: what `get_pixel` gives for a place inside it.
pub uninterp spec fn image_pixel(img: image::DynamicImage, x: int, y: int) -> (u8, u8, u8, u8);

/// The grayscale samples of an image, row by row, as `to_luma8` gives them.
pub uninterp spec fn image_luma(img: image::DynamicImage) -> Seq<u8>;

/// Where a cut-out that is asked for at `start` begins along an axis of
/// length `total`: at `start`, or at the far edge where `start` lies beyond.
pub open spec fn clipped_start(start: int, total: int) -> int {
    if start <= total {
        start
    } else {
        total
    }
}

/// How long a cut-out that is asked for at `start` with length `len` is
/// along an axis of length `total`: `len`, or what is left of the axis
/// from where the cut-out begins.
pub open spec fn clipped_len(start: int, len: int, total: int) -> int {
    if len <= total - clipped_start(start, total) {
        len
    } else {
        total - clipped_start(start, total)
    }
}

/// A grayscale image as the detector takes it: one sample for each pixel,
/// row by row.
#[derive(Debug)]
pub struct GrayFrame {
    pub width: u32,
    pub height: u32,
    pub pixels: Vec<u8>,
}

impl GrayFrame {
    /// The frame is one that the detector accepts: neither dimension is 0,
    /// and there are exactly as many samples as pixels.
    pub open spec fn well_formed(&self) -> bool {
        &&& self.width > 0
        &&& self.height > 0
        &&& self.pixels@.len() == self.width * self.height
    }
}

/// Calls `image::GenericImageView::dimensions` on the image. The contract
/// gives the two numbers their names.
#[verifier::external_body]
fn dimensions_of(img: &image::DynamicImage) -> (size: (u32, u32))
    ensures
        size.0 == image_width(*img),
        size.1 == image_height(*img),
{
    image::GenericImageView::dimensions(img)
}

/// Calls `image::DynamicImage::to_luma8` on the image and hands out the
/// samples of the copy. The contract gives them their name and claims
/// nothing of their number.
#[verifier::external_body]
fn luma_of(img: &image::DynamicImage) -> (samples: Vec<u8>)
    ensures
        samples@ == image_luma(*img),
{
    img.to_luma8().into_raw()
}

/// Calls `image::DynamicImage::crop_imm` on the image. The contract claims
/// that the rectangle asked for is first cut down to the image, and that
/// the result has the size of what is left and holds the image's pixels
/// from its corner on.
#[verifier::external_body]
fn cut_out(img: &image::DynamicImage, x: u32, y: u32, width: u32, height: u32) -> (out:
    image::DynamicImage)
    ensures
        image_width(out) == clipped_len(x as int, width as int, image_width(*img)),
        image_height(out) == clipped_len(y as int, height as int, image_height(*img)),
        forall|i: int, j: int|
            0 <= i < image_width(out) && 0 <= j < image_height(out) ==> #[trigger] image_pixel(
                out,
                i,
                j,
            ) == image_pixel(
                *img,
                clipped_start(x as int, image_width(*img)) + i,
                clipped_start(y as int, image_height(*img)) + j,
            ),
{
    img.crop_imm(x, y, width, height)
}

/// Prepares what the detector is given for an image: its size and its
/// grayscale samples. There is no frame for an image without pixels, nor
/// where the samples are not one for each pixel: the detector takes neither.
pub fn detector_frame(img: &image::DynamicImage) -> (frame: Option<GrayFrame>)
    ensures
        frame is Some <==> image_width(*img) > 0 && image_height(*img) > 0 && image_luma(
            *img,
        ).len() == image_width(*img) * image_height(*img),
        match frame {
            Some(f) => f.well_formed() && f.width == image_width(*img) && f.height
                == image_height(*img) && f.pixels@ == image_luma(*img),
            None => true,
        },
{
    let (width, height) = dimensions_of(img);
    let pixels = luma_of(img);
    if width == 0 || height == 0 {
        return None;
    }
    assert(width * height <= u64::MAX) by (nonlinear_arith)
        requires
            width <= u32::MAX,
            height <= u32::MAX,
    ;
    let owed: u64 = (width as u64) * (height as u64);
    if pixels.len() as u64 != owed {
        return None;
    }
    Some(GrayFrame { width, height, pixels })
}

/// Cuts the square around the one face out of an image for which the
/// detector answered `faces`. Nothing is cut out where the detector found
/// no face or several: the reason is handed back instead.
pub fn crop_to_face(img: &image::DynamicImage, faces: &Vec<BoundingBox>) -> (outcome: Result<
    image::DynamicImage,
    ValidationError,
>)
    ensures
        outcome is Ok <==> faces@.len() == 1,
        match outcome {
            Ok(out) => {
                let crop = crop_for(image_width(*img), image_height(*img), faces@[0]);
                &&& image_width(out) == crop.2
                &&& image_height(out) == crop.2
                &&& forall|i: int, j: int|
                    0 <= i < crop.2 && 0 <= j < crop.2 ==> #[trigger] image_pixel(out, i, j)
                        == image_pixel(*img, crop.0 + i, crop.1 + j)
            },
            Err(e) => single_face(faces@) == Err::<BoundingBox, ValidationError>(e),
        },
{
    let (width, height) = dimensions_of(img);
    match plan_crop(width, height, faces) {
        Ok(crop) => Ok(cut_out(img, crop.x, crop.y, crop.side, crop.side)),
        Err(e) => Err(e),
    }
}

} // verus!
