use crate::version::alpha_raised;
use crate::version::beta_raised;
use crate::version::build_accepted;
use crate::version::rc_raised;
use crate::version::Version;
use crate::version::VersionView;
use vstd::prelude::*;

verus! {

/// How far a relative bump moves a version.
#[derive(Clone, Copy, Debug, PartialEq, Eq, Structural)]
pub enum BumpLevel {
    Major,
    Minor,
    Patch,
    /// Strip the pre-release identifier.
    Release,
    Rc,
    Beta,
    Alpha,
}

/// The version a package is to get: computed from the current one, or given.
#[derive(Debug)]
pub enum TargetVersion {
    Relative(BumpLevel),
    Absolute(Version),
}

/// The content of a [`TargetVersion`].
pub enum TargetView {
    Relative(BumpLevel),
    Absolute(VersionView),
}

impl View for TargetVersion {
    type V = TargetView;

    open spec fn view(&self) -> TargetView {
        match self {
            TargetVersion::Relative(level) => TargetView::Relative(*level),
            TargetVersion::Absolute(version) => TargetView::Absolute(version@),
        }
    }
}

/// Why no next version could be computed.
#[derive(Debug)]
pub enum BumpError {
    /// A number that would have to grow is already the largest one.
    OutOfRange,
    /// `cargo_edit` refused the pre-release increment; `message` is what it
    /// said.
    Refused { message: String },
    /// The build metadata is not an identifier that `semver` accepts.
    InvalidMetadata { metadata: String },
    /// The explicit target is older than the current version.
    Downgrade { current: Version, requested: Version },
}

/// The content of a [`BumpError`].
pub enum BumpErrorView {
    OutOfRange,
    Refused { message: Seq<char> },
    InvalidMetadata { metadata: Seq<char> },
    Downgrade { current: VersionView, requested: VersionView },
}

impl View for BumpError {
    type V = BumpErrorView;

    open spec fn view(&self) -> BumpErrorView {
        match self {
            BumpError::OutOfRange => BumpErrorView::OutOfRange,
            BumpError::Refused { message } => BumpErrorView::Refused { message: message@ },
            BumpError::InvalidMetadata { metadata } => BumpErrorView::InvalidMetadata {
                metadata: metadata@,
            },
            BumpError::Downgrade { current, requested } => BumpErrorView::Downgrade {
                current: current@,
                requested: requested@,
            },
        }
    }
}

/// The content of an optional text.
pub open spec fn text_view(text: Option<&str>) -> Option<Seq<char>> {
    match text {
        Some(t) => Some(t@),
        None => None,
    }
}

/// The content of the outcome of [`BumpLevel::bump_version`].
pub open spec fn bumped_view(outcome: Result<Version, BumpError>) -> Result<
    VersionView,
    BumpErrorView,
> {
    match outcome {
        Ok(version) => Ok(version@),
        Err(error) => Err(error@),
    }
}

/// The content of the outcome of [`TargetVersion::bump`].
pub open spec fn resolved_view(outcome: Result<Option<Version>, BumpError>) -> Result<
    Option<VersionView>,
    BumpErrorView,
> {
    match outcome {
        Ok(Some(version)) => Ok(Some(version@)),
        Ok(None) => Ok(None),
        Err(error) => Err(error@),
    }
}

/// A pre-release increment as `cargo_edit` reports it, with its refusal
/// turned into an error of this library.
pub open spec fn staged(raised: Result<VersionView, Seq<char>>) -> Result<
    VersionView,
    BumpErrorView,
> {
    match raised {
        Ok(version) => Ok(version),
        Err(message) => Err(BumpErrorView::Refused { message }),
    }
}

/// The version that `level` makes of `version`, before build metadata is
/// looked at.
pub open spec fn spec_raise(level: BumpLevel, version: VersionView) -> Result<
    VersionView,
    BumpErrorView,
> {
    match level {
        BumpLevel::Major => if version.major < u64::MAX {
            Ok(version.major_raised())
        } else {
            Err(BumpErrorView::OutOfRange)
        },
        BumpLevel::Minor => if version.minor < u64::MAX {
            Ok(version.minor_raised())
        } else {
            Err(BumpErrorView::OutOfRange)
        },
        BumpLevel::Patch => if version.is_prerelease() {
            Ok(version.released())
        } else if version.patch < u64::MAX {
            Ok(version.patch_raised())
        } else {
            Err(BumpErrorView::OutOfRange)
        },
        BumpLevel::Release => Ok(version.released()),
        BumpLevel::Rc => if version.stage_in_range() {
            staged(rc_raised(version))
        } else {
            Err(BumpErrorView::OutOfRange)
        },
        BumpLevel::Beta => if version.stage_in_range() {
            staged(beta_raised(version))
        } else {
            Err(BumpErrorView::OutOfRange)
        },
        BumpLevel::Alpha => if version.stage_in_range() {
            staged(alpha_raised(version))
        } else {
            Err(BumpErrorView::OutOfRange)
        },
    }
}

/// `version` with the build metadata asked for, where any is.
pub open spec fn spec_stamp(version: VersionView, metadata: Option<Seq<char>>) -> Result<
    VersionView,
    BumpErrorView,
> {
    match metadata {
        None => Ok(version),
        Some(build) => if build_accepted(build) {
            Ok(version.with_build(build))
        } else {
            Err(BumpErrorView::InvalidMetadata { metadata: build })
        },
    }
}

/// The version that a relative bump makes of `version`: raised by `level`,
/// then stamped with `metadata`.
pub open spec fn spec_bump_version(
    level: BumpLevel,
    version: VersionView,
    metadata: Option<Seq<char>>,
) -> Result<VersionView, BumpErrorView> {
    match spec_raise(level, version) {
        Ok(raised) => spec_stamp(raised, metadata),
        Err(error) => Err(error),
    }
}

/// What a target makes of the current version: `Ok(None)` where nothing
/// changes, `Ok(Some(next))` for the version to write, or the error.
///
/// A relative target bumps the current version and reports a change only if
/// the result differs. An explicit target equal to the current version is no
/// change; a later one is taken, with build metadata from `metadata` or else
/// from the current version where it brings none of its own; an earlier one
/// is a downgrade.
pub open spec fn spec_bump(
    target: TargetView,
    current: VersionView,
    metadata: Option<Seq<char>>,
) -> Result<Option<VersionView>, BumpErrorView> {
    match target {
        TargetView::Relative(level) => match spec_bump_version(level, current, metadata) {
            Ok(next) => if next == current {
                Ok(None)
            } else {
                Ok(Some(next))
            },
            Err(error) => Err(error),
        },
        TargetView::Absolute(version) => if current == version {
            Ok(None)
        } else if current.precedes(version) {
            if version.build.len() > 0 {
                Ok(Some(version))
            } else {
                match metadata {
                    Some(build) => if build_accepted(build) {
                        Ok(Some(version.with_build(build)))
                    } else {
                        Err(BumpErrorView::InvalidMetadata { metadata: build })
                    },
                    None => Ok(Some(version.with_build(current.build))),
                }
            }
        } else {
            Err(BumpErrorView::Downgrade { current, requested: version })
        },
    }
}

/// The target that the two ways of asking for a version select. With neither
/// given, the pre-release identifier is stripped.
pub open spec fn spec_select_target(
    explicit: Option<Version>,
    level: Option<BumpLevel>,
) -> TargetView {
    match (explicit, level) {
        (Some(version), _) => TargetView::Absolute(version@),
        (None, Some(level)) => TargetView::Relative(level),
        (None, None) => TargetView::Relative(BumpLevel::Release),
    }
}

/// Picks the target from an explicit version or a bump level. At most one of
/// the two may be given.
pub fn select_target(explicit: Option<Version>, level: Option<BumpLevel>) -> (target: TargetVersion)
    requires
        !(explicit is Some && level is Some),
    ensures
        target@ == spec_select_target(explicit, level),
{
    match explicit {
        Some(version) => TargetVersion::Absolute(version),
        None => match level {
            Some(level) => TargetVersion::Relative(level),
            None => TargetVersion::Relative(BumpLevel::Release),
        },
    }
}

/// Turns the outcome of a pre-release increment into this library's result:
/// a new version is taken over, a refusal becomes [`BumpError::Refused`]
/// with the same words.
pub fn stage_outcome(raised: Result<Version, String>) -> (outcome: Result<Version, BumpError>)
    ensures
        bumped_view(outcome) == staged(crate::version::raised_view(raised)),
{
    match raised {
        Ok(version) => Ok(version),
        Err(message) => Err(BumpError::Refused { message }),
    }
}

impl BumpLevel {
    /// Raises `version` by this level, without looking at build metadata.
    pub fn raise(self, version: &Version) -> (outcome: Result<Version, BumpError>)
        ensures
            bumped_view(outcome) == spec_raise(self, version@),
    {
        match self {
            BumpLevel::Major => if version.major() < u64::MAX {
                Ok(version.raise_major())
            } else {
                Err(BumpError::OutOfRange)
            },
            BumpLevel::Minor => if version.minor() < u64::MAX {
                Ok(version.raise_minor())
            } else {
                Err(BumpError::OutOfRange)
            },
            BumpLevel::Patch => if version.is_prerelease() {
                Ok(version.to_release())
            } else if version.patch() < u64::MAX {
                Ok(version.raise_patch())
            } else {
                Err(BumpError::OutOfRange)
            },
            BumpLevel::Release => Ok(version.to_release()),
            BumpLevel::Rc => if version.stage_in_range() {
                stage_outcome(version.raise_to_rc())
            } else {
                Err(BumpError::OutOfRange)
            },
            BumpLevel::Beta => if version.stage_in_range() {
                stage_outcome(version.raise_to_beta())
            } else {
                Err(BumpError::OutOfRange)
            },
            BumpLevel::Alpha => if version.stage_in_range() {
                stage_outcome(version.raise_to_alpha())
            } else {
                Err(BumpError::OutOfRange)
            },
        }
    }

    /// Raises `version` by this level and stamps it with `metadata`, where
    /// any is given.
    pub fn bump_version(self, version: &Version, metadata: Option<&str>) -> (outcome: Result<
        Version,
        BumpError,
    >)
        ensures
            bumped_view(outcome) == spec_bump_version(self, version@, text_view(metadata)),
    {
        match self.raise(version) {
            Ok(raised) => match metadata {
                None => Ok(raised),
                Some(build) => match raised.replace_build(build) {
                    Some(stamped) => Ok(stamped),
                    None => Err(BumpError::InvalidMetadata { metadata: build.to_owned() }),
                },
            },
            Err(error) => Err(error),
        }
    }
}

impl TargetVersion {
    /// Computes the version that `current` is to become, or `None` where it
    /// stays as it is.
    pub fn bump(&self, current: &Version, metadata: Option<&str>) -> (outcome: Result<
        Option<Version>,
        BumpError,
    >)
        ensures
            resolved_view(outcome) == spec_bump(self@, current@, text_view(metadata)),
    {
        match self {
            TargetVersion::Relative(level) => match level.bump_version(current, metadata) {
                Ok(next) => if next.same_as(current) {
                    Ok(None)
                } else {
                    Ok(Some(next))
                },
                Err(error) => Err(error),
            },
            TargetVersion::Absolute(version) => if current.same_as(version) {
                Ok(None)
            } else if current.precedes(version) {
                if !version.build().is_empty() {
                    Ok(Some(version.duplicate()))
                } else {
                    match metadata {
                        Some(build) => match version.replace_build(build) {
                            Some(stamped) => Ok(Some(stamped)),
                            None => Err(BumpError::InvalidMetadata { metadata: build.to_owned() }),
                        },
                        None => Ok(Some(version.with_build_of(current))),
                    }
                }
            } else {
                Err(
                    BumpError::Downgrade {
                        current: current.duplicate(),
                        requested: version.duplicate(),
                    },
                )
            },
        }
    }
}

/// Whether two texts are the same.
pub fn same_text(left: &str, right: &str) -> (same: bool)
    ensures
        same == (left@ == right@),
{
    left.to_owned() == right.to_owned()
}

/// The level that `name` stands for on the command line.
pub open spec fn spec_level_named(name: Seq<char>) -> Option<BumpLevel> {
    if name == "major"@ {
        Some(BumpLevel::Major)
    } else if name == "minor"@ {
        Some(BumpLevel::Minor)
    } else if name == "patch"@ {
        Some(BumpLevel::Patch)
    } else if name == "release"@ {
        Some(BumpLevel::Release)
    } else if name == "rc"@ {
        Some(BumpLevel::Rc)
    } else if name == "beta"@ {
        Some(BumpLevel::Beta)
    } else if name == "alpha"@ {
        Some(BumpLevel::Alpha)
    } else {
        None
    }
}

/// What is said of a name that stands for no level.
pub open spec fn level_hint() -> Seq<char> {
    "[valid values: major, minor, patch, rc, beta, alpha]"@
}

impl BumpLevel {
    /// Reads a level from its name on the command line; any other text is
    /// answered with the list of names.
    pub fn from_name(name: &str) -> (level: Result<BumpLevel, String>)
        ensures
            match spec_level_named(name@) {
                Some(named) => level == Ok::<BumpLevel, String>(named),
                None => level matches Err(hint) && hint@ == level_hint(),
            },
    {
        if same_text(name, "major") {
            Ok(BumpLevel::Major)
        } else if same_text(name, "minor") {
            Ok(BumpLevel::Minor)
        } else if same_text(name, "patch") {
            Ok(BumpLevel::Patch)
        } else if same_text(name, "release") {
            Ok(BumpLevel::Release)
        } else if same_text(name, "rc") {
            Ok(BumpLevel::Rc)
        } else if same_text(name, "beta") {
            Ok(BumpLevel::Beta)
        } else if same_text(name, "alpha") {
            Ok(BumpLevel::Alpha)
        } else {
            Err("[valid values: major, minor, patch, rc, beta, alpha]".to_owned())
        }
    }
}

/// An explicit target that is the current version changes nothing, whatever
/// build metadata is asked for.
pub proof fn law_same_version_is_no_change(version: VersionView, metadata: Option<Seq<char>>)
    ensures
        spec_bump(TargetView::Absolute(version), version, metadata) == Ok::<
            Option<VersionView>,
            BumpErrorView,
        >(None),
{
}

/// Whether the three numbers of `left` come before those of `right`, read
/// from left to right.
pub open spec fn numbers_before(left: VersionView, right: VersionView) -> bool {
    left.major < right.major || (left.major == right.major && (left.minor < right.minor || (
    left.minor == right.minor && left.patch < right.patch)))
}

/// An explicit target is judged by its numbers first: with later numbers it
/// is taken, with the build metadata of the current version where neither
/// it nor the command line brings any; with earlier numbers it is a
/// downgrade.
pub proof fn law_explicit_target_by_numbers(target: VersionView, current: VersionView)
    ensures
        numbers_before(current, target) ==> spec_bump(
            TargetView::Absolute(target),
            current,
            None,
        ) == Ok::<Option<VersionView>, BumpErrorView>(
            Some(
                if target.build.len() > 0 {
                    target
                } else {
                    target.with_build(current.build)
                },
            ),
        ),
        numbers_before(target, current) ==> spec_bump(
            TargetView::Absolute(target),
            current,
            None,
        ) == Err::<Option<VersionView>, BumpErrorView>(
            BumpErrorView::Downgrade { current, requested: target },
        ),
{
}

/// A relative target never reports the current version as a new one.
pub proof fn law_new_version_differs(
    level: BumpLevel,
    current: VersionView,
    metadata: Option<Seq<char>>,
)
    ensures
        spec_bump(TargetView::Relative(level), current, metadata) matches Ok(Some(next)) ==> next
            != current,
{
}

/// Without build metadata, a major, minor or patch bump of a release gives
/// the release with that number raised and the lower ones reset.
pub proof fn law_number_bumps(current: VersionView)
    requires
        !current.is_prerelease(),
    ensures
        current.major < u64::MAX ==> spec_bump(
            TargetView::Relative(BumpLevel::Major),
            current,
            None,
        ) == Ok::<Option<VersionView>, BumpErrorView>(Some(current.major_raised())),
        current.minor < u64::MAX ==> spec_bump(
            TargetView::Relative(BumpLevel::Minor),
            current,
            None,
        ) == Ok::<Option<VersionView>, BumpErrorView>(Some(current.minor_raised())),
        current.patch < u64::MAX ==> spec_bump(
            TargetView::Relative(BumpLevel::Patch),
            current,
            None,
        ) == Ok::<Option<VersionView>, BumpErrorView>(Some(current.patch_raised())),
{
}

} // verus!
