use face_crop::extensions::{is_supported_extension, matches_ignoring_case};
use face_crop::names::{cropped_file_name, split_file_name};

#[test]
fn suffix_goes_between_stem_and_extension() {
    assert_eq!(cropped_file_name("photo.jpg"), "photo_cropped.jpg");
    assert_eq!(cropped_file_name("b.png"), "b_cropped.png");
}

#[test]
fn only_the_last_dot_divides_the_name() {
    assert_eq!(cropped_file_name("archive.tar.gz"), "archive.tar_cropped.gz");
    assert_eq!(split_file_name("archive.tar.gz"), ("archive.tar", Some("gz")));
}

#[test]
fn name_without_dot_has_no_extension() {
    assert_eq!(split_file_name("portrait"), ("portrait", None));
    assert_eq!(cropped_file_name("portrait"), "portrait_cropped");
}

#[test]
fn leading_dot_does_not_start_an_extension() {
    assert_eq!(split_file_name(".hidden"), (".hidden", None));
    assert_eq!(cropped_file_name(".hidden"), ".hidden_cropped");
    assert_eq!(split_file_name(".hidden.png"), (".hidden", Some("png")));
}

#[test]
fn trailing_dot_gives_an_empty_extension() {
    assert_eq!(split_file_name("photo."), ("photo", Some("")));
    assert_eq!(cropped_file_name("photo."), "photo_cropped.");
}

#[test]
fn empty_name_gets_only_the_suffix() {
    assert_eq!(split_file_name(""), ("", None));
    assert_eq!(cropped_file_name(""), "_cropped");
}

#[test]
fn names_beyond_ascii_are_divided_by_characters() {
    assert_eq!(split_file_name("été.jpeg"), ("été", Some("jpeg")));
    assert_eq!(cropped_file_name("写真.png"), "写真_cropped.png");
}

#[test]
fn split_agrees_with_std_path() {
    let names = ["photo.jpg", "a.b.c", ".hidden", "noext", "x.", ".a.b", "..a", "a..b"];
    for name in names {
        let path = std::path::Path::new(name);
        let (stem, ext) = split_file_name(name);
        assert_eq!(Some(stem), path.file_stem().and_then(|s| s.to_str()), "{}", name);
        assert_eq!(ext, path.extension().and_then(|s| s.to_str()), "{}", name);
    }
}

#[test]
fn every_supported_extension_is_accepted() {
    for ext in ["jpg", "jpeg", "png", "bmp", "tif", "tiff", "webp"] {
        assert!(is_supported_extension(ext), "{}", ext);
    }
}

#[test]
fn extension_case_does_not_matter() {
    for ext in ["JPG", "Jpeg", "pNg", "BMP", "TIF", "TiFf", "WEBP"] {
        assert!(is_supported_extension(ext), "{}", ext);
    }
}

#[test]
fn other_extensions_are_refused() {
    for ext in ["txt", "gif", "", "jp", "jpgg", "pn g", "jpg ", "ｊｐｇ", "svg", "tifff"] {
        assert!(!is_supported_extension(ext), "{}", ext);
    }
}

#[test]
fn comparison_ignores_only_ascii_case() {
    assert!(matches_ignoring_case("WebP", "webp"));
    assert!(matches_ignoring_case("", ""));
    assert!(!matches_ignoring_case("web", "webp"));
    assert!(!matches_ignoring_case("webp", "web"));
    assert!(!matches_ignoring_case("É", "é"));
    assert!(!matches_ignoring_case("@bc", "`bc"));
    assert!(!matches_ignoring_case("[", "{"));
}
