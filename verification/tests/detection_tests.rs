use face_crop::detection::{plan_crop, select_face, ValidationError};
use face_crop::geometry::{BoundingBox, CropRect};

fn face(x: i32, y: i32, width: u32, height: u32) -> BoundingBox {
    BoundingBox { x, y, width, height }
}

#[test]
fn no_face_is_rejected() {
    assert_eq!(select_face(&vec![]), Err(ValidationError::NoFaces));
    assert_eq!(plan_crop(100, 100, &vec![]), Err(ValidationError::NoFaces));
}

#[test]
fn one_face_is_accepted() {
    let only = face(10, 20, 30, 40);
    assert_eq!(select_face(&vec![only]), Ok(only));
}

#[test]
fn several_faces_are_rejected_with_their_number() {
    let two = vec![face(0, 0, 10, 10), face(50, 50, 10, 10)];
    assert_eq!(select_face(&two), Err(ValidationError::MultipleFaces(2)));
    let five = vec![face(1, 1, 1, 1); 5];
    assert_eq!(plan_crop(100, 100, &five), Err(ValidationError::MultipleFaces(5)));
}

#[test]
fn one_face_gives_the_crop_around_it() {
    let plan = plan_crop(1000, 100, &vec![face(500, 20, 100, 60)]);
    assert_eq!(plan, Ok(CropRect { x: 500, y: 0, side: 100 }));
}
