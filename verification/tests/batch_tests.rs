use face_crop::batch::{plan_directory, Entry};

fn entry(path: &str, is_file: bool) -> Entry {
    Entry { path: path.to_string(), is_file }
}

fn pairs(entries: &[Entry], out_dir: Option<&str>) -> Vec<(String, String)> {
    plan_directory(&entries.to_vec(), out_dir).into_iter().map(|p| (p.input, p.output)).collect()
}

#[test]
fn only_the_image_is_planned() {
    let entries = [entry("in/face.jpg", true), entry("in/notes.txt", true)];
    assert_eq!(
        pairs(&entries, None),
        vec![("in/face.jpg".to_string(), "in/face_cropped.jpg".to_string())]
    );
}

#[test]
fn directories_are_passed_over() {
    let entries = [entry("in/album.png", false), entry("in/sub", false)];
    assert_eq!(pairs(&entries, Some("out")), vec![]);
}

#[test]
fn plans_keep_the_order_of_the_entries() {
    let entries = [
        entry("in/c.webp", true),
        entry("in/readme", true),
        entry("in/a.JPG", true),
        entry("in/b.bmp", true),
    ];
    assert_eq!(
        pairs(&entries, Some("out")),
        vec![
            ("in/c.webp".to_string(), "out/c_cropped.webp".to_string()),
            ("in/a.JPG".to_string(), "out/a_cropped.JPG".to_string()),
            ("in/b.bmp".to_string(), "out/b_cropped.bmp".to_string()),
        ]
    );
}

#[test]
fn empty_directory_gives_no_plan() {
    assert_eq!(pairs(&[], None), vec![]);
    assert_eq!(pairs(&[], Some("out")), vec![]);
}
