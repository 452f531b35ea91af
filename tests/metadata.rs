use aer_data::chocolatey::ChocolateyMetadata;
use aer_data::defaults;
use aer_data::metadata::{License, PackageMetadata};
use aer_data::url::Url;

#[test]
fn new_should_create_default_metadata_with_expected_values() {
    let actual = PackageMetadata::new("test-package");

    assert_eq!(actual.id(), "test-package");
    assert_eq!(actual.maintainers(), defaults::maintainer(None).as_slice());
    assert_eq!(actual.project_url(), &defaults::url());
    assert_eq!(actual.project_source_url_opt(), None);
    assert_eq!(actual.package_source_url_opt(), None);
    assert_eq!(actual.license(), &License::Absent);
    assert_eq!(actual.summary, String::new());
    assert!(!actual.has_chocolatey());
}

#[test]
fn default_should_create_default_metadata_with_expected_values() {
    let expected = PackageMetadata::new("");

    let actual = PackageMetadata::default();

    assert_eq!(actual, expected);
}

#[test]
fn id_should_return_set_identifier() {
    const EXPECTED: &str = "my-awesome-test-package";

    let pkg = PackageMetadata::new(EXPECTED);

    assert_eq!(pkg.id(), EXPECTED);
}

#[test]
fn maintainers_should_return_set_maintainers() {
    let expected = [
        "AdmiringWorm".to_owned(),
        "Some maintainer".to_owned(),
        "Some other".to_owned(),
    ];
    let mut pkg = PackageMetadata::new("test");
    pkg.set_maintainers(&["AdmiringWorm", "Some maintainer", "Some other"]);

    assert_eq!(pkg.maintainers(), expected);
}

#[test]
fn project_url_should_return_set_project_url() {
    let expected = Url::parse("https://github.com/WormieCorp/aer").unwrap();
    let mut pkg = PackageMetadata::new("test");
    pkg.set_project_url("https://github.com/WormieCorp/aer").unwrap();

    assert_eq!(pkg.project_url(), &expected);
}

#[test]
fn chocolatey_should_return_set_data() {
    let expected = ChocolateyMetadata::with_authors(&["AdmiringWorm", "kim"]);

    let mut data = PackageMetadata::new("some-id");
    data.set_chocolatey(expected.clone());

    assert!(data.has_chocolatey());
    assert_eq!(data.chocolatey(), expected);
}

#[test]
fn chocolatey_should_return_default_data() {
    let data = PackageMetadata::new("some-other-id");

    assert!(!data.has_chocolatey());
    assert_eq!(data.chocolatey(), ChocolateyMetadata::new());
}

#[test]
fn source_url_getters_return_placeholder_when_unset() {
    let mut pkg = PackageMetadata::new("test");
    assert_eq!(pkg.project_source_url(), defaults::url());
    assert_eq!(pkg.package_source_url(), defaults::url());

    pkg.set_project_source_url("https://github.com/WormieCorp/aer")
        .unwrap();
    pkg.set_package_source_url("https://github.com/AdmiringWorm/chocolatey-packages")
        .unwrap();
    assert_eq!(
        pkg.project_source_url().as_str(),
        "https://github.com/WormieCorp/aer"
    );
    assert_eq!(
        pkg.package_source_url().as_str(),
        "https://github.com/AdmiringWorm/chocolatey-packages"
    );
}

#[test]
fn url_setters_reject_text_that_is_not_a_url() {
    let mut pkg = PackageMetadata::new("test");

    assert!(pkg.set_project_url("not a url").is_err());
    assert!(pkg.set_project_source_url("not a url").is_err());
    assert!(pkg.set_package_source_url("").is_err());
    assert_eq!(pkg.project_url(), &defaults::url());
    assert_eq!(pkg.project_source_url_opt(), None);
    assert_eq!(pkg.package_source_url_opt(), None);
}

#[test]
fn url_parse_normalizes_the_address() {
    let url = Url::parse("HTTPS://Example.COM").unwrap();

    assert_eq!(url.as_str(), "https://example.com/");
    assert_eq!(url.scheme(), "https");
    assert!(url.has_host());
}

#[test]
fn license_url_prefers_the_given_address() {
    let location = Url::parse("https://some-page.org/license").unwrap();
    let known = Url::parse("https://opensource.org/licenses/MIT").unwrap();

    assert_eq!(License::Absent.license_url(), None);
    assert_eq!(License::Url(location.clone()).license_url(), Some(location.clone()));
    assert_eq!(
        License::expression("MIT", Some(known.clone())).license_url(),
        Some(known)
    );
    assert_eq!(License::expression("unknown", None).license_url(), None);
    assert_eq!(
        License::ExpressionAndLocation {
            expression: "MIT".to_string(),
            location: location.clone()
        }
        .license_url(),
        Some(location)
    );
}

#[test]
fn license_from_text_tells_addresses_from_expressions() {
    assert_eq!(
        License::from_text("https://some-page.org/license"),
        License::Url(Url::parse("https://some-page.org/license").unwrap())
    );
    assert_eq!(License::from_text("MIT"), License::expression("MIT", None));
}
