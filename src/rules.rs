//! Validation of package metadata: rules that each apply at some
//! strictness levels and each give at most one finding.

use vstd::prelude::*;
use vstd::string::*;

use crate::metadata::PackageMetadata;
use crate::text::{lower_of, to_lowercase};

pub mod metadata;

verus! {

/// How serious a finding is, from the most to the least.
#[derive(Debug, Clone, Copy, PartialEq, Eq, Structural)]
pub enum MessageType {
    Requirement,
    Guideline,
    Suggestion,
    Note,
}

/// A finding of a rule: its severity, the package manager it is about
/// (empty when it is about all of them) and what it says.
#[derive(Debug, Clone, PartialEq)]
pub struct RuleMessage {
    pub message_type: MessageType,
    pub package_manager: &'static str,
    pub message: String,
}

/// What a finding holds.
pub struct RuleMessageView {
    pub message_type: MessageType,
    pub package_manager: Seq<char>,
    pub message: Seq<char>,
}

impl View for RuleMessage {
    type V = RuleMessageView;

    open spec fn view(&self) -> RuleMessageView {
        RuleMessageView {
            message_type: self.message_type,
            package_manager: self.package_manager@,
            message: self.message@,
        }
    }
}

impl RuleMessage {
    /// A copy of the finding.
    pub fn duplicate(&self) -> (r: RuleMessage)
        ensures
            r@ == self@,
    {
        RuleMessage {
            message_type: self.message_type,
            package_manager: self.package_manager,
            message: self.message.clone(),
        }
    }
}

/// The findings of a list, as views.
pub open spec fn messages_view(s: Seq<RuleMessage>) -> Seq<RuleMessageView> {
    s.map_values(|m: RuleMessage| m@)
}

/// The finding that a rule reported, if any.
pub open spec fn finding_of(r: Result<(), RuleMessage>) -> Option<RuleMessageView> {
    match r {
        Ok(()) => None,
        Err(m) => Some(m@),
    }
}

/// How strictly metadata is validated: `Core` runs the rules without which
/// no package can be made, `Community` runs those and the rules of good
/// practice as well.
#[derive(Debug, Clone, Copy, PartialEq, Eq, Structural)]
pub enum RuleKind {
    Core,
    Community,
}

/// The name of a strictness level.
pub open spec fn kind_name(k: RuleKind) -> Seq<char> {
    match k {
        RuleKind::Core => "core"@,
        RuleKind::Community => "community"@,
    }
}

impl RuleKind {
    /// Reads a strictness level from its name, in any case.
    pub fn parse(value: &str) -> (r: Result<RuleKind, String>)
        ensures
            r == Ok::<RuleKind, String>(RuleKind::Core) <==> lower_of(value@) == "core"@,
            r == Ok::<RuleKind, String>(RuleKind::Community) <==> lower_of(value@) == "community"@,
            r matches Err(e) ==> e@ == value@ + " is not a valid rule!"@,
    {
        proof {
            reveal_strlit("core");
            reveal_strlit("community");
            assert("core"@.len() != "community"@.len());
        }
        let lowered = to_lowercase(value);
        if lowered == String::from_str("core") {
            Ok(RuleKind::Core)
        } else if lowered == String::from_str("community") {
            Ok(RuleKind::Community)
        } else {
            Err(String::from_str(value).concat(" is not a valid rule!"))
        }
    }

    /// The name of the strictness level.
    pub fn as_str(&self) -> (r: &'static str)
        ensures
            r@ == kind_name(*self),
    {
        match self {
            RuleKind::Core => "core",
            RuleKind::Community => "community",
        }
    }
}

impl std::str::FromStr for RuleKind {
    type Err = String;

    fn from_str(value: &str) -> Result<RuleKind, String> {
        RuleKind::parse(value)
    }
}

impl Default for RuleKind {
    /// The strictness that validation uses unless told otherwise: `Core`.
    fn default() -> (r: RuleKind)
        ensures
            r == RuleKind::Core,
    {
        RuleKind::Core
    }
}

/// A validation rule over values of type `T`.
pub trait RuleHandler<T> {
    /// Whether the rule runs at a strictness level.
    spec fn applies(kind: RuleKind) -> bool;

    /// What the rule finds in a value, if anything.
    spec fn finding(data: T) -> Option<RuleMessageView>;

    /// Whether the rule runs at a strictness level.
    fn should_validate(rule_type: &RuleKind) -> (r: bool)
        ensures
            r == Self::applies(*rule_type),
    ;

    /// Checks a value, giving the finding of the rule if it has one.
    fn validate(data: &T) -> (r: Result<(), RuleMessage>)
        ensures
            finding_of(r) == Self::finding(*data),
    ;
}

/// The findings that one rule adds: its finding, when it runs and finds
/// something.
pub open spec fn rule_findings(applies: bool, finding: Option<RuleMessageView>) -> Seq<RuleMessageView> {
    if applies && finding is Some {
        seq![finding->Some_0]
    } else {
        Seq::empty()
    }
}

/// Runs one rule on a value, adding its finding to the list.
pub fn call_rule<T, R: RuleHandler<T>>(msgs: &mut Vec<RuleMessage>, rule_kind: &RuleKind, data: &T)
    ensures
        messages_view(final(msgs)@) == messages_view(old(msgs)@) + rule_findings(
            R::applies(*rule_kind),
            R::finding(*data),
        ),
{
    let ghost before = msgs@;
    if R::should_validate(rule_kind) {
        if let Err(msg) = R::validate(data) {
            msgs.push(msg);
            assert(messages_view(msgs@) =~= messages_view(before) + rule_findings(
                R::applies(*rule_kind),
                R::finding(*data),
            ));
            return;
        }
    }
    assert(messages_view(msgs@) =~= messages_view(before) + rule_findings(
        R::applies(*rule_kind),
        R::finding(*data),
    ));
}

/// The findings of every rule on shared metadata at a strictness level:
/// the rules for all package managers first, then those for Chocolatey.
pub open spec fn validation_findings(data: PackageMetadata, kind: RuleKind) -> Seq<RuleMessageView> {
    metadata::metadata_findings(data, kind) + metadata::chocolatey::chocolatey_findings(data, kind)
}

/// Validates shared metadata at a strictness level: `Ok` when no rule
/// finds anything, else every finding in the order of the rules.
pub fn validate_metadata(data: &PackageMetadata, rule_kind: &RuleKind) -> (r: Result<(), Vec<RuleMessage>>)
    ensures
        r is Ok <==> validation_findings(*data, *rule_kind).len() == 0,
        r matches Err(m) ==> messages_view(m@) == validation_findings(*data, *rule_kind),
{
    let mut msgs: Vec<RuleMessage> = Vec::new();
    assert(messages_view(msgs@) =~= Seq::empty());
    metadata::run_validation(&mut msgs, data, rule_kind);
    assert(messages_view(msgs@) =~= validation_findings(*data, *rule_kind));
    if msgs.len() == 0 {
        Ok(())
    } else {
        Err(msgs)
    }
}

/// Every finding at `Core` strictness is also found at `Community`
/// strictness: the `Core` findings are the first findings at `Community`.
pub proof fn lemma_core_findings_within_community(data: PackageMetadata)
    ensures
        validation_findings(data, RuleKind::Core).len() <= validation_findings(
            data,
            RuleKind::Community,
        ).len(),
        validation_findings(data, RuleKind::Core) == validation_findings(
            data,
            RuleKind::Community,
        ).take(validation_findings(data, RuleKind::Core).len() as int),
        forall|m: RuleMessageView|
            validation_findings(data, RuleKind::Core).contains(m) ==> validation_findings(
                data,
                RuleKind::Community,
            ).contains(m),
{
    let core = validation_findings(data, RuleKind::Core);
    let community = validation_findings(data, RuleKind::Community);
    assert(metadata::metadata_findings(data, RuleKind::Core) == metadata::metadata_findings(
        data,
        RuleKind::Community,
    ));
    assert(metadata::chocolatey::chocolatey_findings(data, RuleKind::Core) =~= Seq::empty());
    assert(core =~= metadata::metadata_findings(data, RuleKind::Core));
    assert(core =~= community.take(core.len() as int));
    assert forall|m: RuleMessageView| core.contains(m) implies community.contains(m) by {
        let i = choose|i: int| 0 <= i < core.len() && core[i] == m;
        assert(community[i] == m);
    }
}

/// The findings of a list that have the given severity, in order.
pub open spec fn of_type(s: Seq<RuleMessageView>, t: MessageType) -> Seq<RuleMessageView> {
    s.filter(|m: RuleMessageView| m.message_type == t)
}

/// The findings that have the given severity, in the order of the list.
pub fn messages_of_type(msgs: &[RuleMessage], message_type: MessageType) -> (r: Vec<RuleMessage>)
    ensures
        messages_view(r@) == of_type(messages_view(msgs@), message_type),
{
    let mut r: Vec<RuleMessage> = Vec::new();
    let mut i: usize = 0;
    proof {
        reveal(Seq::filter);
        assert(messages_view(msgs@.take(0)) =~= Seq::empty());
        assert(messages_view(r@) =~= of_type(messages_view(msgs@.take(0)), message_type));
    }
    while i < msgs.len()
        invariant
            i <= msgs@.len(),
            messages_view(r@) == of_type(messages_view(msgs@.take(i as int)), message_type),
        decreases msgs@.len() - i,
    {
        let ghost before = r@;
        proof {
            let next = messages_view(msgs@.take(i + 1));
            assert(next =~= messages_view(msgs@.take(i as int)).push(msgs@[i as int]@));
            reveal(Seq::filter);
            assert(next.drop_last() =~= messages_view(msgs@.take(i as int)));
        }
        if msgs[i].message_type == message_type {
            r.push(msgs[i].duplicate());
            assert(messages_view(r@) =~= messages_view(before).push(msgs@[i as int]@));
        }
        i += 1;
    }
    assert(msgs@.take(msgs@.len() as int) =~= msgs@);
    r
}

} // verus!
