//! The rules for the shared metadata of every package manager.

use vstd::prelude::*;

use crate::metadata::PackageMetadata;
use crate::rules::{
    call_rule, messages_view, rule_findings, MessageType, RuleHandler, RuleKind, RuleMessage,
    RuleMessageView,
};
use crate::text::{blank, is_blank, lower_of, to_lowercase};

pub mod chocolatey;

verus! {

/// An identifier that is empty, or whitespace only, is refused.
pub struct IdNotEmptyRequirement;

/// Metadata without a maintainer that has a name is refused.
pub struct MaintainersNotEmptyRequirement;

/// A project address that is a local path, or that has no host, is
/// refused.
pub struct ProjectUrlNotLocalPathRequirement;

/// A finding about every package manager with the given text.
pub open spec fn requirement(message: Seq<char>) -> RuleMessageView {
    RuleMessageView { message_type: MessageType::Requirement, package_manager: Seq::empty(), message }
}

/// The text of the finding on an empty identifier.
pub open spec fn id_empty_text() -> Seq<char> {
    "A identifier can not be empty!"@
}

/// The text of the finding on missing maintainers.
pub open spec fn maintainers_empty_text() -> Seq<char> {
    "At least 1 maintainer must be specified for the package!"@
}

/// The text of the finding on a local project address.
pub open spec fn local_url_text() -> Seq<char> {
    "The project url can not be a local path!"@
}

/// Every maintainer name is empty (or there is none).
pub open spec fn no_named_maintainer(m: Seq<Seq<char>>) -> bool {
    forall|i: int| 0 <= i < m.len() ==> (#[trigger] m[i]).len() == 0
}

/// The project address of the metadata is a local path or lacks a host.
pub open spec fn local_project_url(data: PackageMetadata) -> bool {
    let u = data.project_address();
    !u.host_present() || u.local_file() || lower_of(u.scheme_text()) == "file"@
}

impl RuleHandler<PackageMetadata> for IdNotEmptyRequirement {
    open spec fn applies(kind: RuleKind) -> bool {
        true
    }

    open spec fn finding(data: PackageMetadata) -> Option<RuleMessageView> {
        if blank(data@.id) {
            Some(requirement(id_empty_text()))
        } else {
            None
        }
    }

    fn should_validate(rule_type: &RuleKind) -> (r: bool) {
        true
    }

    fn validate(data: &PackageMetadata) -> (r: Result<(), RuleMessage>) {
        proof {
            reveal_strlit("");
            assert(""@ =~= Seq::<char>::empty());
        }
        if is_blank(data.id()) {
            Err(
                RuleMessage {
                    message_type: MessageType::Requirement,
                    message: String::from_str("A identifier can not be empty!"),
                    package_manager: "",
                },
            )
        } else {
            Ok(())
        }
    }
}

impl RuleHandler<PackageMetadata> for MaintainersNotEmptyRequirement {
    open spec fn applies(kind: RuleKind) -> bool {
        true
    }

    open spec fn finding(data: PackageMetadata) -> Option<RuleMessageView> {
        if no_named_maintainer(data@.maintainers) {
            Some(requirement(maintainers_empty_text()))
        } else {
            None
        }
    }

    fn should_validate(rule_type: &RuleKind) -> (r: bool) {
        true
    }

    fn validate(metadata: &PackageMetadata) -> (r: Result<(), RuleMessage>) {
        proof {
            reveal_strlit("");
            assert(""@ =~= Seq::<char>::empty());
        }
        let maintainers = metadata.maintainers();
        let mut i: usize = 0;
        while i < maintainers.len()
            invariant
                i <= maintainers@.len(),
                crate::text::texts(maintainers@) == metadata@.maintainers,
                forall|j: int| 0 <= j < i ==> (#[trigger] maintainers@[j])@.len() == 0,
            decreases maintainers@.len() - i,
        {
            if !maintainers[i].as_str().is_empty() {
                assert(metadata@.maintainers[i as int].len() != 0);
                return Ok(());
            }
            i += 1;
        }
        assert(no_named_maintainer(metadata@.maintainers)) by {
            assert forall|j: int| 0 <= j < metadata@.maintainers.len() implies (
            #[trigger] metadata@.maintainers[j]).len() == 0 by {
                assert(metadata@.maintainers[j] == maintainers@[j]@);
            }
        }
        Err(
            RuleMessage {
                message_type: MessageType::Requirement,
                message: String::from_str("At least 1 maintainer must be specified for the package!"),
                package_manager: "",
            },
        )
    }
}

impl RuleHandler<PackageMetadata> for ProjectUrlNotLocalPathRequirement {
    open spec fn applies(kind: RuleKind) -> bool {
        true
    }

    open spec fn finding(data: PackageMetadata) -> Option<RuleMessageView> {
        if local_project_url(data) {
            Some(requirement(local_url_text()))
        } else {
            None
        }
    }

    fn should_validate(rule_type: &RuleKind) -> (r: bool) {
        true
    }

    fn validate(data: &PackageMetadata) -> (r: Result<(), RuleMessage>) {
        proof {
            reveal_strlit("");
            assert(""@ =~= Seq::<char>::empty());
        }
        let project_url = data.project_url();
        let scheme = to_lowercase(project_url.scheme());
        if !project_url.has_host() || project_url.is_file_path() || scheme == String::from_str(
            "file",
        ) {
            Err(
                RuleMessage {
                    message_type: MessageType::Requirement,
                    message: String::from_str("The project url can not be a local path!"),
                    package_manager: "",
                },
            )
        } else {
            Ok(())
        }
    }
}

/// The findings of the rules for every package manager, in their order:
/// identifier, maintainers, project address.
pub open spec fn metadata_findings(data: PackageMetadata, kind: RuleKind) -> Seq<RuleMessageView> {
    rule_findings(
        <IdNotEmptyRequirement as RuleHandler<PackageMetadata>>::applies(kind),
        <IdNotEmptyRequirement as RuleHandler<PackageMetadata>>::finding(data),
    ) + rule_findings(
        <MaintainersNotEmptyRequirement as RuleHandler<PackageMetadata>>::applies(kind),
        <MaintainersNotEmptyRequirement as RuleHandler<PackageMetadata>>::finding(data),
    ) + rule_findings(
        <ProjectUrlNotLocalPathRequirement as RuleHandler<PackageMetadata>>::applies(kind),
        <ProjectUrlNotLocalPathRequirement as RuleHandler<PackageMetadata>>::finding(data),
    )
}

/// Runs every rule on the metadata, adding the findings to the list: the
/// rules for every package manager first, then those for Chocolatey.
pub fn run_validation(msgs: &mut Vec<RuleMessage>, data: &PackageMetadata, rule_kind: &RuleKind)
    ensures
        messages_view(final(msgs)@) == messages_view(old(msgs)@) + metadata_findings(*data, *rule_kind)
            + chocolatey::chocolatey_findings(*data, *rule_kind),
{
    let ghost before = messages_view(msgs@);
    call_rule::<PackageMetadata, IdNotEmptyRequirement>(msgs, rule_kind, data);
    call_rule::<PackageMetadata, MaintainersNotEmptyRequirement>(msgs, rule_kind, data);
    call_rule::<PackageMetadata, ProjectUrlNotLocalPathRequirement>(msgs, rule_kind, data);
    chocolatey::run_validation(msgs, data, rule_kind);
    assert(messages_view(msgs@) =~= before + metadata_findings(*data, *rule_kind)
        + chocolatey::chocolatey_findings(*data, *rule_kind));
}

} // verus!
