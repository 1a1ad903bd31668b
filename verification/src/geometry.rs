//! Crop geometry: the square region cut out of an image around one face.

use vstd::prelude::*;

verus! {

/// An axis-aligned rectangle reported for one detected face: its top-left
/// corner and its extent, in pixels of the source image.
#[derive(Clone, Copy, Debug, PartialEq, Eq, Structural)]
pub struct BoundingBox {
    pub x: i32,
    pub y: i32,
    pub width: u32,
    pub height: u32,
}

/// The square region that is cut out of the source image.
#[derive(Clone, Copy, Debug, PartialEq, Eq, Structural)]
pub struct CropRect {
    pub x: u32,
    pub y: u32,
    pub side: u32,
}

/// The smaller of the two image dimensions: the side of every crop.
pub open spec fn crop_side(width: int, height: int) -> int {
    if width <= height {
        width
    } else {
        height
    }
}

/// The centre of a box along one axis: its start plus half its extent,
/// the half rounded down.
pub open spec fn box_center(start: int, extent: int) -> int {
    start + extent / 2
}

/// Where a crop of length `side` starts along an axis of length `extent`
/// when it is centred on `center`: never before 0, and pulled back so that
/// it ends at `extent` where centring alone would run past it.
pub open spec fn crop_origin(center: int, side: int, extent: int) -> int {
    let centered = if center - side / 2 > 0 {
        center - side / 2
    } else {
        0
    };
    if centered + side > extent {
        extent - side
    } else {
        centered
    }
}

/// The crop for an image of the given size around the given box.
pub open spec fn crop_for(width: int, height: int, face: BoundingBox) -> (int, int, int) {
    let side = crop_side(width, height);
    (
        crop_origin(box_center(face.x as int, face.width as int), side, width),
        crop_origin(box_center(face.y as int, face.height as int), side, height),
        side,
    )
}

impl CropRect {
    /// The crop as a triple of mathematical integers: origin x, origin y, side.
    pub open spec fn view(&self) -> (int, int, int) {
        (self.x as int, self.y as int, self.side as int)
    }

    /// The crop lies wholly inside an image of the given size.
    pub open spec fn fits_in(&self, width: int, height: int) -> bool {
        &&& self.x + self.side <= width
        &&& self.y + self.side <= height
    }
}

/// Where the crop starts along one axis.
fn origin_along(start: i32, extent: u32, side: u32, length: u32) -> (origin: u32)
    requires
        side <= length,
    ensures
        origin == crop_origin(box_center(start as int, extent as int), side as int, length as int),
        origin + side <= length,
{
    let center: i64 = start as i64 + (extent / 2) as i64;
    let half: i64 = (side / 2) as i64;
    let centered: i64 = if center - half > 0 {
        center - half
    } else {
        0
    };
    if centered + side as i64 > length as i64 {
        length - side
    } else {
        centered as u32
    }
}

/// Computes the square crop of an image `width` by `height` around `face`.
///
/// The side is the smaller image dimension. Along each axis the crop is
/// centred on the box and then moved back inside the image, so it always
/// lies wholly within the image, whatever the box.
pub fn compute_crop(width: u32, height: u32, face: &BoundingBox) -> (crop: CropRect)
    ensures
        crop@ == crop_for(width as int, height as int, *face),
        crop.side == crop_side(width as int, height as int),
        crop.fits_in(width as int, height as int),
{
    let side: u32 = if width <= height {
        width
    } else {
        height
    };
    CropRect {
        x: origin_along(face.x, face.width, side, width),
        y: origin_along(face.y, face.height, side, height),
        side,
    }
}

/// A crop never leaves the image: for every image size and every box, the
/// origin is not negative, the crop ends at or before the right and bottom
/// edges, and its side is the smaller image dimension.
pub proof fn crop_stays_inside(width: int, height: int, face: BoundingBox)
    requires
        0 <= width,
        0 <= height,
    ensures
        0 <= crop_for(width, height, face).0,
        0 <= crop_for(width, height, face).1,
        crop_for(width, height, face).0 + crop_for(width, height, face).2 <= width,
        crop_for(width, height, face).1 + crop_for(width, height, face).2 <= height,
        crop_for(width, height, face).2 == crop_side(width, height),
{
}

/// In a square image, a box whose centre is the centre of the image gives
/// the whole image: the origin is (0, 0) and the side is the image's side.
pub proof fn centered_box_in_square_gives_whole_image(size: int, face: BoundingBox)
    requires
        0 < size,
        box_center(face.x as int, face.width as int) == size / 2,
        box_center(face.y as int, face.height as int) == size / 2,
    ensures
        crop_for(size, size, face) == (0int, 0int, size),
{
}

/// In an image wider than tall, a box that touches the left edge and is no
/// wider than the crop gives a crop that starts at the left edge.
pub proof fn left_edge_box_starts_at_zero(width: int, height: int, face: BoundingBox)
    requires
        0 < height < width,
        face.x == 0,
        face.width / 2 <= height / 2,
    ensures
        crop_for(width, height, face).0 == 0,
{
}

/// Where centring the crop on the box would run past the right edge, the
/// crop ends exactly at the right edge.
pub proof fn right_edge_box_ends_at_width(width: int, height: int, face: BoundingBox)
    requires
        0 < width,
        0 < height,
        box_center(face.x as int, face.width as int) - crop_side(width, height) / 2 + crop_side(
            width,
            height,
        ) > width,
    ensures
        crop_for(width, height, face).0 == width - crop_side(width, height),
{
}

/// Where centring the crop on the box would run past the bottom edge, the
/// crop ends exactly at the bottom edge.
pub proof fn bottom_edge_box_ends_at_height(width: int, height: int, face: BoundingBox)
    requires
        0 < width,
        0 < height,
        box_center(face.y as int, face.height as int) - crop_side(width, height) / 2 + crop_side(
            width,
            height,
        ) > height,
    ensures
        crop_for(width, height, face).1 == height - crop_side(width, height),
{
}

} // verus!
