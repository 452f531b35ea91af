//! The rules for metadata that Chocolatey packages are made from.

use vstd::prelude::*;

use crate::metadata::PackageMetadata;
use crate::rules::{
    call_rule, messages_view, rule_findings, MessageType, RuleHandler, RuleKind, RuleMessage,
    RuleMessageView,
};
use crate::text::{contains_uppercase, has_upper};

verus! {

/// An identifier with uppercase characters is noted: new Chocolatey
/// packages use lowercase identifiers.
pub struct IdIsLowercaseNote;

/// The text of the finding on an identifier with uppercase characters.
pub open spec fn uppercase_id_text() -> Seq<char> {
    "The identifier contains upper case characters. If this is a new package, it should only contain characters in lower case!"@
}

impl RuleHandler<PackageMetadata> for IdIsLowercaseNote {
    open spec fn applies(kind: RuleKind) -> bool {
        kind == RuleKind::Community
    }

    open spec fn finding(data: PackageMetadata) -> Option<RuleMessageView> {
        if has_upper(data@.id) {
            Some(
                RuleMessageView {
                    message_type: MessageType::Note,
                    package_manager: "choco"@,
                    message: uppercase_id_text(),
                },
            )
        } else {
            None
        }
    }

    fn should_validate(rule_kind: &RuleKind) -> (r: bool) {
        *rule_kind == RuleKind::Community
    }

    fn validate(data: &PackageMetadata) -> (r: Result<(), RuleMessage>) {
        if contains_uppercase(data.id()) {
            Err(
                RuleMessage {
                    message_type: MessageType::Note,
                    message: String::from_str(
                        "The identifier contains upper case characters. If this is a new package, it should only contain characters in lower case!",
                    ),
                    package_manager: "choco",
                },
            )
        } else {
            Ok(())
        }
    }
}

/// The findings of the Chocolatey rules.
pub open spec fn chocolatey_findings(data: PackageMetadata, kind: RuleKind) -> Seq<RuleMessageView> {
    rule_findings(
        <IdIsLowercaseNote as RuleHandler<PackageMetadata>>::applies(kind),
        <IdIsLowercaseNote as RuleHandler<PackageMetadata>>::finding(data),
    )
}

/// Runs the Chocolatey rules on the metadata, adding the findings to the
/// list.
pub fn run_validation(msgs: &mut Vec<RuleMessage>, data: &PackageMetadata, rule_kind: &RuleKind)
    ensures
        messages_view(final(msgs)@) == messages_view(old(msgs)@) + chocolatey_findings(*data, *rule_kind),
{
    call_rule::<PackageMetadata, IdIsLowercaseNote>(msgs, rule_kind, data);
}

} // verus!
