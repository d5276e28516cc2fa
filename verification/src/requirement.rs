use crate::version::Version;
use crate::version::VersionView;
use vstd::prelude::*;

verus! {

/// Whether `semver` can read `text` as a version requirement.
pub uninterp spec fn requirement_readable(text: Seq<char>) -> bool;

/// What `cargo_edit` makes of a readable requirement when the package it
/// points at becomes `version`: `Ok(None)` where the requirement stays,
/// `Ok(Some(text))` with the requirement to write in its place, or the text
/// of its refusal.
pub uninterp spec fn requirement_upgraded(requirement: Seq<char>, version: VersionView) -> Result<
    Option<Seq<char>>,
    Seq<char>,
>;

/// The requirement that matches every release.
pub open spec fn wildcard() -> Seq<char> {
    seq!['*']
}

/// Why a requirement was not upgraded.
#[derive(Debug)]
pub enum UpgradeError {
    /// The requirement cannot be read as one.
    Malformed { requirement: String },
    /// `cargo_edit` does not rewrite requirements of this kind; `message` is
    /// what it said.
    Unsupported { message: String },
}

/// The content of an [`UpgradeError`].
pub enum UpgradeErrorView {
    Malformed { requirement: Seq<char> },
    Unsupported { message: Seq<char> },
}

impl View for UpgradeError {
    type V = UpgradeErrorView;

    open spec fn view(&self) -> UpgradeErrorView {
        match self {
            UpgradeError::Malformed { requirement } => UpgradeErrorView::Malformed {
                requirement: requirement@,
            },
            UpgradeError::Unsupported { message } => UpgradeErrorView::Unsupported {
                message: message@,
            },
        }
    }
}

/// The content of what `cargo_edit` hands back for a requirement.
pub open spec fn rewrite_view(outcome: Result<Option<String>, String>) -> Result<
    Option<Seq<char>>,
    Seq<char>,
> {
    match outcome {
        Ok(Some(text)) => Ok(Some(text@)),
        Ok(None) => Ok(None),
        Err(message) => Err(message@),
    }
}

/// The content of the outcome of [`upgrade_requirement`].
pub open spec fn upgrade_view(outcome: Result<Option<String>, UpgradeError>) -> Result<
    Option<Seq<char>>,
    UpgradeErrorView,
> {
    match outcome {
        Ok(Some(text)) => Ok(Some(text@)),
        Ok(None) => Ok(None),
        Err(error) => Err(error@),
    }
}

/// What becomes of a readable requirement, given what `cargo_edit` made of
/// it: its change is taken over, its refusal becomes
/// [`UpgradeError::Unsupported`].
pub open spec fn spec_settle(rewritten: Result<Option<Seq<char>>, Seq<char>>) -> Result<
    Option<Seq<char>>,
    UpgradeErrorView,
> {
    match rewritten {
        Ok(change) => Ok(change),
        Err(message) => Err(UpgradeErrorView::Unsupported { message }),
    }
}

/// What becomes of the requirement `requirement` when the package it points
/// at becomes `version`.
///
/// The wildcard stays. A requirement that cannot be read is an error that
/// names it. Any other requirement becomes what `cargo_edit` makes of it.
pub open spec fn spec_upgrade(requirement: Seq<char>, version: VersionView) -> Result<
    Option<Seq<char>>,
    UpgradeErrorView,
> {
    if requirement == wildcard() {
        Ok(None)
    } else if !requirement_readable(requirement) {
        Err(UpgradeErrorView::Malformed { requirement })
    } else {
        spec_settle(requirement_upgraded(requirement, version))
    }
}

/// Calls `semver::VersionReq::parse` and reports whether it succeeded. The
/// contract only names that outcome.
#[verifier::external_body]
fn requirement_is_readable(text: &str) -> (ok: bool)
    ensures
        ok == requirement_readable(text@),
{
    semver::VersionReq::parse(text).is_ok()
}

/// Calls `cargo_edit::upgrade_requirement` with the version rebuilt field by
/// field as a `semver::Version`, and turns its error into text. It is asked
/// only about requirements that `semver` can read, since it stops the
/// program on any other. The contract names the outcome and adds what the
/// last lines of the outside function show: a replacement is never the text
/// it replaces.
#[verifier::external_body]
fn rewrite_readable(requirement: &str, version: &Version) -> (outcome: Result<
    Option<String>,
    String,
>)
    requires
        requirement_readable(requirement@),
        version@.well_formed(),
    ensures
        rewrite_view(outcome) == requirement_upgraded(requirement@, version@),
        outcome matches Ok(Some(text)) ==> text@ != requirement@,
{
    let pre = semver::Prerelease::new(&version.pre).unwrap();
    let build = semver::BuildMetadata::new(&version.build).unwrap();
    let (major, minor, patch) = (version.major, version.minor, version.patch);
    let v = semver::Version { major, minor, patch, pre, build };
    match cargo_edit::upgrade_requirement(requirement, &v) {
        Ok(change) => Ok(change),
        Err(e) => Err(e.to_string()),
    }
}

/// Whether `text` is the wildcard requirement.
pub fn is_wildcard(text: &str) -> (yes: bool)
    ensures
        yes == (text@ == wildcard()),
{
    let len: usize = text.unicode_len();
    if len != 1 {
        return false;
    }
    let yes = text.get_char(0) == '*';
    proof {
        if yes {
            assert(text@ =~= wildcard());
        }
    }
    yes
}

/// Turns what `cargo_edit` handed back for a readable requirement into this
/// library's result.
pub fn settle(rewritten: Result<Option<String>, String>) -> (outcome: Result<
    Option<String>,
    UpgradeError,
>)
    ensures
        upgrade_view(outcome) == spec_settle(rewrite_view(rewritten)),
{
    match rewritten {
        Ok(change) => Ok(change),
        Err(message) => Err(UpgradeError::Unsupported { message }),
    }
}

/// Decides whether the requirement `requirement` on a package has to change
/// when that package becomes `version`, and to what.
///
/// `Ok(None)` leaves the requirement as it is; `Ok(Some(text))` gives the
/// requirement to write in its place, which always differs from the old one.
pub fn upgrade_requirement(requirement: &str, version: &Version) -> (outcome: Result<
    Option<String>,
    UpgradeError,
>)
    ensures
        upgrade_view(outcome) == spec_upgrade(requirement@, version@),
        outcome matches Ok(Some(text)) ==> text@ != requirement@,
{
    if is_wildcard(requirement) {
        return Ok(None);
    }
    if !requirement_is_readable(requirement) {
        return Err(UpgradeError::Malformed { requirement: requirement.to_owned() });
    }
    proof {
        use_type_invariant(version);
    }
    settle(rewrite_readable(requirement, version))
}

/// The wildcard requirement is left alone whatever the version.
pub proof fn law_wildcard_stays(version: VersionView)
    ensures
        spec_upgrade(wildcard(), version) == Ok::<Option<Seq<char>>, UpgradeErrorView>(None),
{
}

} // verus!
