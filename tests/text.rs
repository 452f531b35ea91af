use aer_data::text::{contains_uppercase, generate_identifier, is_blank};

#[test]
fn generate_identifier_replaces_spaces_and_lowercases() {
    assert_eq!(generate_identifier("Google Chrome", true), "google-chrome");
    assert_eq!(generate_identifier("Google Chrome", false), "Google-Chrome");
    assert_eq!(generate_identifier("7Zip", true), "7zip");
    assert_eq!(generate_identifier("", true), "");
}

#[test]
fn blank_and_uppercase_checks() {
    assert!(is_blank(""));
    assert!(is_blank(" \t\r\n"));
    assert!(!is_blank(" a "));
    assert!(contains_uppercase("test-PackAGE"));
    assert!(!contains_uppercase("test-package"));
}
