//! What is accepted of a detector's answer: exactly one face.

use crate::geometry::{compute_crop, crop_for, BoundingBox, CropRect};
use vstd::prelude::*;

verus! {

/// Why a detector's answer was turned down. Neither is a fault of the
/// detector: an image is only cropped when it shows one face and no more.
#[derive(Clone, Copy, Debug, PartialEq, Eq, Structural)]
pub enum ValidationError {
    /// The detector found no face.
    NoFaces,
    /// The detector found this many faces, at least two.
    MultipleFaces(usize),
}

/// The verdict on a detection result: its only box where there is exactly
/// one, else the reason for turning it down.
pub open spec fn single_face(faces: Seq<BoundingBox>) -> Result<BoundingBox, ValidationError> {
    if faces.len() == 0 {
        Err(ValidationError::NoFaces)
    } else if faces.len() > 1 {
        Err(ValidationError::MultipleFaces(faces.len() as usize))
    } else {
        Ok(faces[0])
    }
}

/// The crop owed for an image and a detection result.
pub open spec fn face_crop(width: int, height: int, faces: Seq<BoundingBox>) -> Result<
    (int, int, int),
    ValidationError,
> {
    match single_face(faces) {
        Ok(face) => Ok(crop_for(width, height, face)),
        Err(e) => Err(e),
    }
}

/// Accepts a detection result that holds exactly one box and hands that box
/// out; an empty result and one with several boxes are turned down, the
/// latter with the number found.
pub fn select_face(faces: &Vec<BoundingBox>) -> (verdict: Result<BoundingBox, ValidationError>)
    ensures
        verdict == single_face(faces@),
        verdict is Ok <==> faces@.len() == 1,
{
    if faces.len() == 0 {
        Err(ValidationError::NoFaces)
    } else if faces.len() > 1 {
        Err(ValidationError::MultipleFaces(faces.len()))
    } else {
        Ok(faces[0])
    }
}

/// Decides what to cut out of an image `width` by `height` for which the
/// detector answered `faces`: the square crop around the one face, or the
/// reason why nothing is cut out.
pub fn plan_crop(width: u32, height: u32, faces: &Vec<BoundingBox>) -> (plan: Result<
    CropRect,
    ValidationError,
>)
    ensures
        plan is Ok <==> faces@.len() == 1,
        match plan {
            Ok(crop) => face_crop(width as int, height as int, faces@) == Ok::<
                (int, int, int),
                ValidationError,
            >(crop@) && crop.fits_in(width as int, height as int),
            Err(e) => face_crop(width as int, height as int, faces@) == Err::<
                (int, int, int),
                ValidationError,
            >(e),
        },
{
    match select_face(faces) {
        Ok(face) => Ok(compute_crop(width, height, &face)),
        Err(e) => Err(e),
    }
}

/// A detection result is accepted exactly when it holds one box; with none
/// the verdict is `NoFaces`, with more it is `MultipleFaces` and their number.
pub proof fn only_one_face_is_accepted(faces: Seq<BoundingBox>)
    requires
        faces.len() <= usize::MAX,
    ensures
        faces.len() == 1 <==> single_face(faces) is Ok,
        faces.len() == 0 <==> single_face(faces) == Err::<BoundingBox, ValidationError>(
            ValidationError::NoFaces,
        ),
        faces.len() >= 2 <==> single_face(faces) == Err::<BoundingBox, ValidationError>(
            ValidationError::MultipleFaces(faces.len() as usize),
        ),
{
}

} // verus!
