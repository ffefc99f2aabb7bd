use remote_relay::upload::{
    is_file_part, write_outcome, BodyFault, UploadError, UploadEvent, UploadProgress, FILE_PART,
};

#[test]
fn only_the_file_part_is_read() {
    assert!(is_file_part(&Some(FILE_PART.to_string())));
    assert!(is_file_part(&Some("file".to_string())));
    assert!(!is_file_part(&Some("File".to_string())));
    assert!(!is_file_part(&Some("notes".to_string())));
    assert!(!is_file_part(&Some(String::new())));
    assert!(!is_file_part(&None));
}

#[test]
fn second_image_replaces_first() {
    let mut p = UploadProgress::new();
    assert!(p.step(UploadEvent::FilePart(vec![1, 2, 3, 4])));
    assert!(p.step(UploadEvent::FilePart(vec![9, 8])));
    assert!(!p.step(UploadEvent::End));
    assert_eq!(p.finish(), Ok(vec![9, 8]));
}

#[test]
fn single_image_is_kept_as_is() {
    let mut p = UploadProgress::new();
    assert!(p.step(UploadEvent::OtherPart));
    assert!(p.step(UploadEvent::FilePart(vec![0, 255, 7])));
    assert!(p.step(UploadEvent::OtherPart));
    assert!(!p.step(UploadEvent::End));
    assert_eq!(p.finish(), Ok(vec![0, 255, 7]));
}

#[test]
fn empty_image_is_accepted() {
    let mut p = UploadProgress::new();
    p.step(UploadEvent::FilePart(Vec::new()));
    assert_eq!(p.finish(), Ok(Vec::new()));
}

#[test]
fn no_file_part_is_a_client_error() {
    let mut p = UploadProgress::new();
    assert!(p.step(UploadEvent::OtherPart));
    assert!(!p.step(UploadEvent::End));
    let e = p.finish().unwrap_err();
    assert_eq!(e, UploadError::MissingFilePart);
    assert_eq!(e.status_code(), 400);
}

#[test]
fn broken_body_keeps_image_already_read() {
    let mut p = UploadProgress::new();
    assert!(p.step(UploadEvent::FilePart(vec![1])));
    assert!(!p.step(UploadEvent::BodyError(BodyFault::Malformed)));
    assert_eq!(p.finish(), Ok(vec![1]));
}

#[test]
fn broken_body_without_image_is_a_client_error() {
    let mut p = UploadProgress::new();
    assert!(!p.step(UploadEvent::BodyError(BodyFault::Malformed)));
    let e = p.finish().unwrap_err();
    assert_eq!(e, UploadError::MalformedBody);
    assert_eq!(e.status_code(), 400);
}

#[test]
fn unreadable_file_part_is_skipped() {
    let mut p = UploadProgress::new();
    assert!(p.step(UploadEvent::UnreadableFilePart(BodyFault::Malformed)));
    assert!(p.step(UploadEvent::FilePart(vec![4, 5])));
    assert!(!p.step(UploadEvent::End));
    assert_eq!(p.finish(), Ok(vec![4, 5]));
}

#[test]
fn oversized_body_reports_too_large() {
    let mut p = UploadProgress::new();
    assert!(p.step(UploadEvent::UnreadableFilePart(BodyFault::TooLarge)));
    assert!(!p.step(UploadEvent::BodyError(BodyFault::Malformed)));
    let e = p.finish().unwrap_err();
    assert_eq!(e, UploadError::BodyTooLarge);
    assert_eq!(e.status_code(), 413);
}

#[test]
fn oversized_body_after_whole_image_stores_nothing() {
    let mut p = UploadProgress::new();
    assert!(p.step(UploadEvent::FilePart(vec![1, 2, 3])));
    assert!(!p.step(UploadEvent::BodyError(BodyFault::TooLarge)));
    let e = p.finish().unwrap_err();
    assert_eq!(e, UploadError::BodyTooLarge);
    assert_eq!(e.status_code(), 413);
}

#[test]
fn size_fault_outranks_earlier_malformed_part() {
    let mut p = UploadProgress::new();
    assert!(p.step(UploadEvent::UnreadableFilePart(BodyFault::Malformed)));
    assert!(!p.step(UploadEvent::BodyError(BodyFault::TooLarge)));
    assert_eq!(p.finish(), Err(UploadError::BodyTooLarge));
}

#[test]
fn failed_write_is_a_server_error() {
    assert_eq!(write_outcome(true), Ok(()));
    let e = write_outcome(false).unwrap_err();
    assert_eq!(e, UploadError::WriteFailed);
    assert_eq!(e.status_code(), 500);
}
