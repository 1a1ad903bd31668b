use face_crop::detection::ValidationError;
use face_crop::report::{BatchReport, Outcome};

#[test]
fn new_report_is_empty() {
    let report = BatchReport::new();
    assert_eq!(report.total(), 0);
    assert_eq!((report.cropped(), report.rejected(), report.failed()), (0, 0, 0));
}

#[test]
fn each_outcome_is_counted_once() {
    let mut report = BatchReport::new();
    report.record("a.jpg".to_string(), Outcome::Cropped);
    report.record("b.jpg".to_string(), Outcome::Rejected(ValidationError::NoFaces));
    report.record("c.jpg".to_string(), Outcome::Failed("Failed to open image".to_string()));
    report.record("d.jpg".to_string(), Outcome::Rejected(ValidationError::MultipleFaces(3)));
    report.record("e.jpg".to_string(), Outcome::Cropped);
    report.record("f.jpg".to_string(), Outcome::Cropped);
    assert_eq!(report.total(), 6);
    assert_eq!(report.cropped(), 3);
    assert_eq!(report.rejected(), 2);
    assert_eq!(report.failed(), 1);
    assert_eq!(report.cropped() + report.rejected() + report.failed(), report.total());
}

#[test]
fn report_keeps_files_in_order_with_reasons() {
    let mut report = BatchReport::new();
    report.record("first.png".to_string(), Outcome::Failed("Failed to save output".to_string()));
    report.record("second.png".to_string(), Outcome::Rejected(ValidationError::MultipleFaces(2)));
    assert_eq!(report.files[0].input, "first.png");
    assert!(matches!(&report.files[0].outcome, Outcome::Failed(why) if why == "Failed to save output"));
    assert_eq!(report.files[1].input, "second.png");
    assert!(matches!(
        report.files[1].outcome,
        Outcome::Rejected(ValidationError::MultipleFaces(2))
    ));
}
