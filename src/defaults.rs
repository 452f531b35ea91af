//! Values that stand for what a record was not given.

use vstd::prelude::*;

use crate::url::{placeholder_text, Url};
use crate::version::Version;

verus! {

/// Relies on `whoami::username`: the name of the user that runs the
/// process. It depends on the machine, so nothing is stated of it.
#[verifier::external_body]
fn os_user_name() -> (r: String)
{
    whoami::username()
}

/// The value of a flag that is set unless it is given.
pub fn boolean_true() -> (r: bool)
    ensures
        r,
{
    true
}

/// The version of a package whose version is not known yet: `0.0.0`.
pub fn empty_version() -> (r: Version)
    ensures
        r == (Version { major: 0, minor: 0, patch: 0 }),
{
    Version::zero()
}

/// The address that stands for one that must be given before a release:
/// `https://example.com/MUST_BE_CHANGED`.
pub fn url() -> (r: Url)
    ensures
        r@ == placeholder_text(),
{
    Url::placeholder()
}

/// The maintainers of a package that names none: the maintainer that the
/// environment names, when it names one, else the user running the process.
pub fn maintainer(from_environment: Option<String>) -> (r: Vec<String>)
    ensures
        r@.len() == 1,
        from_environment matches Some(m) ==> r@[0] == m,
{
    let name = match from_environment {
        Some(m) => m,
        None => os_user_name(),
    };
    let mut r: Vec<String> = Vec::new();
    r.push(name);
    r
}

} // verus!
