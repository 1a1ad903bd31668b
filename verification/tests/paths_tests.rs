use face_crop::paths::{
    generate_cropped_filename, generate_default_output_path, is_image_extension,
    resolve_batch_output, resolve_single_output, PathError,
};

#[test]
fn default_output_is_beside_the_input() {
    assert_eq!(generate_default_output_path("photo.jpg"), Ok("photo_cropped.jpg".to_string()));
    assert_eq!(
        generate_default_output_path("shots/2024/photo.jpg"),
        Ok("shots/2024/photo_cropped.jpg".to_string())
    );
    assert_eq!(generate_default_output_path("/abs/p.tiff"), Ok("/abs/p_cropped.tiff".to_string()));
}

#[test]
fn default_output_without_extension() {
    assert_eq!(generate_default_output_path("dir/portrait"), Ok("dir/portrait_cropped".to_string()));
}

#[test]
fn cropped_filename_drops_the_directory() {
    assert_eq!(generate_cropped_filename("a/b.png"), Ok("b_cropped.png".to_string()));
    assert_eq!(generate_cropped_filename("photo.jpg"), Ok("photo_cropped.jpg".to_string()));
}

#[test]
fn output_directory_takes_the_cropped_filename() {
    assert_eq!(resolve_batch_output("a/b.png", Some("out/")), Ok("out/b_cropped.png".to_string()));
    assert_eq!(resolve_batch_output("a/b.png", Some("out")), Ok("out/b_cropped.png".to_string()));
}

#[test]
fn batch_without_output_directory_writes_beside_the_input() {
    assert_eq!(resolve_batch_output("a/b.png", None), Ok("a/b_cropped.png".to_string()));
}

#[test]
fn explicit_output_is_taken_as_given() {
    assert_eq!(
        resolve_single_output("photo.jpg", Some("elsewhere/face.png")),
        Ok("elsewhere/face.png".to_string())
    );
    assert_eq!(resolve_single_output("..", Some("face.png")), Ok("face.png".to_string()));
}

#[test]
fn single_file_without_output_writes_beside_the_input() {
    assert_eq!(resolve_single_output("photo.jpg", None), Ok("photo_cropped.jpg".to_string()));
}

#[test]
fn path_without_file_name_is_an_error() {
    for path in ["", "/", "..", "a/.."] {
        assert_eq!(generate_default_output_path(path), Err(PathError::NoFileName), "{}", path);
        assert_eq!(generate_cropped_filename(path), Err(PathError::NoFileName), "{}", path);
        assert_eq!(resolve_batch_output(path, Some("out")), Err(PathError::NoFileName), "{}", path);
        assert_eq!(resolve_batch_output(path, None), Err(PathError::NoFileName), "{}", path);
        assert_eq!(resolve_single_output(path, None), Err(PathError::NoFileName), "{}", path);
    }
}

#[test]
fn image_paths_are_known_by_their_extension() {
    assert!(is_image_extension("a/b.PNG"));
    assert!(is_image_extension("photo.jpg"));
    assert!(is_image_extension("dir.d/scan.TIFF"));
    assert!(is_image_extension("x.tar.webp"));
}

#[test]
fn other_paths_are_not_images() {
    assert!(!is_image_extension("notes.txt"));
    assert!(!is_image_extension("dir.png/readme"));
    assert!(!is_image_extension("png"));
    assert!(!is_image_extension(".png"));
    assert!(!is_image_extension("a/.."));
    assert!(!is_image_extension(""));
    assert!(!is_image_extension("photo.jpg.bak"));
}
