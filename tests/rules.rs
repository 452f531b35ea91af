use aer_data::metadata::PackageMetadata;
use aer_data::rules::metadata::chocolatey::IdIsLowercaseNote;
use aer_data::rules::metadata::{
    IdNotEmptyRequirement, MaintainersNotEmptyRequirement, ProjectUrlNotLocalPathRequirement,
};
use aer_data::rules::{
    messages_of_type, validate_metadata, MessageType, RuleHandler, RuleKind, RuleMessage,
};

const LOWERCASE_NOTE: &str = "The identifier contains upper case characters. If this is a new \
                              package, it should only contain characters in lower case!";

fn requirement(message: &str) -> RuleMessage {
    RuleMessage {
        message_type: MessageType::Requirement,
        message: message.into(),
        package_manager: "",
    }
}

#[test]
fn should_validate_should_be_true_for_community() {
    assert!(IdIsLowercaseNote::should_validate(&RuleKind::Community))
}

#[test]
fn should_validate_should_be_false() {
    assert!(!IdIsLowercaseNote::should_validate(&RuleKind::Core))
}

#[test]
fn validate_should_return_rule_message_on_uppercase_letter() {
    let data = PackageMetadata::new("test-PackAGE");

    let result = IdIsLowercaseNote::validate(&data);

    assert_eq!(
        result,
        Err(RuleMessage {
            message_type: MessageType::Note,
            message: LOWERCASE_NOTE.into(),
            package_manager: "choco",
        })
    )
}

#[test]
fn validate_should_not_return_message_on_all_lowercase_letters() {
    let data = PackageMetadata::new("test-package");

    let result = IdIsLowercaseNote::validate(&data);

    assert_eq!(result, Ok(()))
}

#[test]
fn id_not_empty_should_validate_should_always_be_true() {
    assert!(IdNotEmptyRequirement::should_validate(&RuleKind::Core));
    assert!(IdNotEmptyRequirement::should_validate(&RuleKind::Community));
}

#[test]
fn validate_should_return_rule_message_on_empty_id() {
    for id in ["", "   ", " \n", "\r ", "\r\n"] {
        let data = PackageMetadata::new(id);

        let result = IdNotEmptyRequirement::validate(&data);

        assert_eq!(result, Err(requirement("A identifier can not be empty!")));
    }
}

#[test]
fn validate_should_not_return_message_on_non_empty_id() {
    let data = PackageMetadata::new("test-id");

    let result = IdNotEmptyRequirement::validate(&data);

    assert_eq!(result, Ok(()));
}

#[test]
fn maintainers_not_empty_should_validate_should_always_be_true() {
    for kind in [RuleKind::Community, RuleKind::Core] {
        assert!(MaintainersNotEmptyRequirement::should_validate(&kind));
    }
}

#[test]
fn validate_should_return_rule_message_on_empty_maintainers() {
    let mut data = PackageMetadata::default();
    let maintainers: [&str; 0] = [];
    data.set_maintainers(&maintainers);

    let result = MaintainersNotEmptyRequirement::validate(&data);

    assert_eq!(
        result,
        Err(requirement(
            "At least 1 maintainer must be specified for the package!"
        ))
    )
}

#[test]
fn validate_should_return_rule_message_when_all_items_is_empty() {
    let mut data = PackageMetadata::default();
    data.set_maintainers(&["", "", ""]);

    let result = MaintainersNotEmptyRequirement::validate(&data);

    assert_eq!(
        result,
        Err(requirement(
            "At least 1 maintainer must be specified for the package!"
        ))
    )
}

#[test]
fn validate_should_not_return_message_on_non_empty_array() {
    let mut data = PackageMetadata::default();
    data.set_maintainers(&["AdmiringWorm", "Chocolatey"]);

    let result = MaintainersNotEmptyRequirement::validate(&data);

    assert_eq!(result, Ok(()))
}

#[test]
fn project_url_not_local_path_should_validate_should_always_be_true() {
    assert!(ProjectUrlNotLocalPathRequirement::should_validate(
        &RuleKind::Core
    ));
    assert!(ProjectUrlNotLocalPathRequirement::should_validate(
        &RuleKind::Community
    ));
}

#[test]
fn validate_should_return_rule_message_on_local_paths() {
    for url in [
        "file:///home/test/test-path",
        "file://C:/test-path",
        "file://localhost/etc/fstab",
        "file:///c:/WINDOWS/clock.avi",
        "file://localhost/c$/WINDOWS/clock.avi",
        "file://./sharename/path/to/the%20file.txt",
    ] {
        let mut data = PackageMetadata::new("valid-id");
        data.set_project_url(url).unwrap();

        let result = ProjectUrlNotLocalPathRequirement::validate(&data);

        assert_eq!(
            result,
            Err(requirement("The project url can not be a local path!"))
        );
    }
}

#[test]
fn validate_should_not_return_any_messages_on_valid_url() {
    let mut data = PackageMetadata::new("valid-id");
    data.set_project_url("https://github.com").unwrap();
    let result = ProjectUrlNotLocalPathRequirement::validate(&data);

    assert_eq!(result, Ok(()))
}

#[test]
fn scenario_core_validation_reports_requirements_in_rule_order() {
    let mut data = PackageMetadata::new("");
    data.set_maintainers(&[]);
    data.set_project_url("file:///home/test/project").unwrap();

    let result = validate_metadata(&data, &RuleKind::Core);

    assert_eq!(
        result,
        Err(vec![
            requirement("A identifier can not be empty!"),
            requirement("At least 1 maintainer must be specified for the package!"),
            requirement("The project url can not be a local path!"),
        ])
    );
}

#[test]
fn community_findings_extend_core_findings() {
    let mut data = PackageMetadata::new("Some-Package");
    data.set_maintainers(&[""]);

    let core = validate_metadata(&data, &RuleKind::Core).unwrap_err();
    let community = validate_metadata(&data, &RuleKind::Community).unwrap_err();

    assert_eq!(core.len(), 1);
    assert_eq!(community.len(), 2);
    assert_eq!(&community[..core.len()], core.as_slice());
    assert_eq!(community[1].message_type, MessageType::Note);
    assert_eq!(community[1].package_manager, "choco");
}

#[test]
fn validation_succeeds_on_complete_metadata() {
    let mut data = PackageMetadata::new("some-package");
    data.set_maintainers(&["AdmiringWorm"]);
    data.set_project_url("https://github.com/WormieCorp/aer").unwrap();

    assert_eq!(validate_metadata(&data, &RuleKind::Community), Ok(()));
}

#[test]
fn messages_of_type_keeps_the_order_of_one_severity() {
    let note = RuleMessage {
        message_type: MessageType::Note,
        message: "note".into(),
        package_manager: "choco",
    };
    let msgs = vec![
        requirement("first"),
        note.clone(),
        requirement("second"),
    ];

    assert_eq!(
        messages_of_type(&msgs, MessageType::Requirement),
        vec![requirement("first"), requirement("second")]
    );
    assert_eq!(messages_of_type(&msgs, MessageType::Note), vec![note]);
    assert!(messages_of_type(&msgs, MessageType::Guideline).is_empty());
}

#[test]
fn rule_kind_is_read_in_any_case() {
    assert_eq!("core".parse::<RuleKind>(), Ok(RuleKind::Core));
    assert_eq!(RuleKind::parse("COMMUNITY"), Ok(RuleKind::Community));
    assert_eq!(
        RuleKind::parse("strict"),
        Err("strict is not a valid rule!".to_string())
    );
    assert_eq!(RuleKind::default(), RuleKind::Core);
    assert_eq!(RuleKind::Community.as_str(), "community");
}
