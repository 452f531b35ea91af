use aer_data::defaults::{boolean_true, empty_version, maintainer, url};
use aer_data::url::Url;
use aer_data::version::Version;

#[test]
fn boolean_true_should_be_true() {
    assert!(boolean_true());
}

#[test]
fn empty_version_should_set_version_to_zero() {
    assert_eq!(empty_version(), Version::new(0, 0, 0));
}

#[test]
fn url_should_set_default_url() {
    assert_eq!(
        url(),
        Url::parse("https://example.com/MUST_BE_CHANGED").unwrap()
    )
}

#[test]
fn maintainer_should_set_maintainer_from_environment() {
    assert_eq!(
        maintainer(Some("The Maintainer".to_string())),
        &["The Maintainer"]
    );
}

#[test]
fn maintainer_should_be_set_from_operating_system_user() {
    let expected = whoami::username();

    assert_eq!(maintainer(None), &[expected]);
}

#[test]
fn default_url_is_the_placeholder_text() {
    assert_eq!(url().as_str(), "https://example.com/MUST_BE_CHANGED");
    assert_eq!(url().scheme(), "https");
    assert!(url().has_host());
    assert!(!url().is_file_path());
}
