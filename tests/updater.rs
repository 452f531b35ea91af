use aer_data::updater::{ChocolateyUpdaterData, ChocolateyUpdaterType, PackageUpdateData};

#[test]
fn should_get_set_chocolatey_data() {
    let mut expected = ChocolateyUpdaterData::new();
    expected.add_regex("arch32", "MY REGEX");

    let mut data = PackageUpdateData::new();
    data.set_chocolatey(expected.clone());

    assert!(data.has_chocolatey());
    assert_eq!(data.chocolatey(), expected);
}

#[test]
fn should_return_default_chocolatey() {
    let expected = ChocolateyUpdaterData::new();

    let data = PackageUpdateData::new();
    assert!(!data.has_chocolatey());
    assert_eq!(data.chocolatey(), expected);
}

#[test]
fn new_should_create_data_with_expected_values() {
    let actual = ChocolateyUpdaterData::new();

    assert_eq!(actual.embedded, false);
    assert_eq!(actual.updater_type, ChocolateyUpdaterType::default());
    assert_eq!(actual.parse_url, None);
    assert!(actual.regexes().is_empty());
    assert_eq!(actual, ChocolateyUpdaterData::default());
}

#[test]
fn set_regexes_should_set_expected_values() {
    let expected = vec![
        ("arch32".to_string(), "test-regex-1".to_string()),
        ("arch64".to_string(), "test-regex-2".to_string()),
    ];

    let mut data = ChocolateyUpdaterData::new();
    data.set_regexes(&[("arch32", "test-regex-1"), ("arch64", "test-regex-2")]);

    assert_eq!(data.regexes(), expected.as_slice());
}

#[test]
fn add_regex_should_include_new_regex() {
    let expected = vec![("some".to_string(), "test-addition-regex".to_string())];

    let mut data = ChocolateyUpdaterData::new();
    data.add_regex("some", "test-addition-regex");

    assert_eq!(data.regexes(), expected.as_slice());
}

#[test]
fn add_regex_replaces_a_known_name() {
    let mut data = ChocolateyUpdaterData::new();
    data.add_regex("arch32", "first");
    data.add_regex("arch64", "second");
    data.add_regex("arch32", "third");

    assert_eq!(
        data.regexes(),
        [
            ("arch32".to_string(), "third".to_string()),
            ("arch64".to_string(), "second".to_string())
        ]
    );
}

#[test]
fn default_updater_type_is_custom() {
    assert_eq!(ChocolateyUpdaterType::default(), ChocolateyUpdaterType::Custom);
    assert_eq!(PackageUpdateData::default(), PackageUpdateData::new());
}
