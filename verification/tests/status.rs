use catalog_assets::status::HttpStatus;

#[test]
fn status_accepts_three_digit_codes_only() {
    assert!(HttpStatus::new(0).is_none());
    assert!(HttpStatus::new(99).is_none());
    assert!(HttpStatus::new(100).is_some());
    assert!(HttpStatus::new(999).is_some());
    assert!(HttpStatus::new(1000).is_none());
    assert!(HttpStatus::new(u16::MAX).is_none());
}

#[test]
fn status_reports_its_code() {
    assert_eq!(HttpStatus::new(404).unwrap().code(), 404);
    assert_eq!(HttpStatus::new(200).unwrap().code(), 200);
}

#[test]
fn status_success_is_the_2xx_class() {
    assert!(!HttpStatus::new(199).unwrap().is_success());
    assert!(HttpStatus::new(200).unwrap().is_success());
    assert!(HttpStatus::new(204).unwrap().is_success());
    assert!(HttpStatus::new(299).unwrap().is_success());
    assert!(!HttpStatus::new(300).unwrap().is_success());
    assert!(!HttpStatus::new(404).unwrap().is_success());
    assert!(!HttpStatus::new(500).unwrap().is_success());
}

#[test]
fn status_text_names_the_reason() {
    assert_eq!(HttpStatus::new(404).unwrap().describe(), "404 Not Found");
    assert_eq!(HttpStatus::new(200).unwrap().describe(), "200 OK");
    assert_eq!(HttpStatus::new(503).unwrap().describe(), "503 Service Unavailable");
}

#[test]
fn status_text_of_unassigned_code() {
    assert_eq!(HttpStatus::new(299).unwrap().describe(), "299 <unknown status code>");
}

#[test]
fn status_agrees_with_reqwest() {
    for code in [100u16, 200, 201, 299, 301, 404, 500, 999] {
        let theirs = reqwest::StatusCode::from_u16(code).unwrap();
        let ours = HttpStatus::new(code).unwrap();
        assert_eq!(ours.is_success(), theirs.is_success());
        assert_eq!(ours.describe(), theirs.to_string());
        assert_eq!(ours.code(), theirs.as_u16());
    }
}
