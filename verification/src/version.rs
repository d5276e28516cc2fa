use vstd::prelude::*;

verus! {

/// The mathematical content of a [`Version`]: three numbers and the text of
/// the pre-release and build-metadata identifiers (empty when absent).
pub struct VersionView {
    pub major: nat,
    pub minor: nat,
    pub patch: nat,
    pub pre: Seq<char>,
    pub build: Seq<char>,
}

/// Whether `semver` accepts `text` as a pre-release identifier.
pub uninterp spec fn prerelease_accepted(text: Seq<char>) -> bool;

/// Whether `semver` accepts `text` as a build-metadata identifier.
pub uninterp spec fn build_accepted(text: Seq<char>) -> bool;

/// Whether `semver` orders the first pre-release identifier strictly before
/// the second.
pub uninterp spec fn prerelease_precedes(left: Seq<char>, right: Seq<char>) -> bool;

/// Whether `semver` orders the first build-metadata identifier strictly
/// before the second.
pub uninterp spec fn build_precedes(left: Seq<char>, right: Seq<char>) -> bool;

/// Whether `text` can stand as a pre-release identifier: it is empty, which
/// is the identifier of a release, or `semver` accepts it.
pub open spec fn prerelease_fits(text: Seq<char>) -> bool {
    text.len() == 0 || prerelease_accepted(text)
}

/// Whether `text` can stand as build metadata: it is empty, which is the
/// identifier of a version without any, or `semver` accepts it.
pub open spec fn build_fits(text: Seq<char>) -> bool {
    text.len() == 0 || build_accepted(text)
}

/// The character of a decimal digit.
pub open spec fn digit(value: nat) -> char {
    if value == 0 {
        '0'
    } else if value == 1 {
        '1'
    } else if value == 2 {
        '2'
    } else if value == 3 {
        '3'
    } else if value == 4 {
        '4'
    } else if value == 5 {
        '5'
    } else if value == 6 {
        '6'
    } else if value == 7 {
        '7'
    } else if value == 8 {
        '8'
    } else {
        '9'
    }
}

/// A number in decimal notation, without leading zeros.
pub open spec fn decimal(value: nat) -> Seq<char>
    decreases value,
{
    if value < 10 {
        seq![digit(value)]
    } else {
        decimal(value / 10).push(digit(value % 10))
    }
}

/// `text` behind `mark`, or nothing where `text` is empty.
pub open spec fn marked(mark: char, text: Seq<char>) -> Seq<char> {
    if text.len() > 0 {
        seq![mark] + text
    } else {
        Seq::<char>::empty()
    }
}

/// What `cargo_edit` makes of a version when asked for the next alpha
/// pre-release: the new version, or the text of its refusal.
pub uninterp spec fn alpha_raised(version: VersionView) -> Result<VersionView, Seq<char>>;

/// What `cargo_edit` makes of a version when asked for the next beta
/// pre-release: the new version, or the text of its refusal.
pub uninterp spec fn beta_raised(version: VersionView) -> Result<VersionView, Seq<char>>;

/// What `cargo_edit` makes of a version when asked for the next release
/// candidate: the new version, or the text of its refusal.
pub uninterp spec fn rc_raised(version: VersionView) -> Result<VersionView, Seq<char>>;

/// The decimal digits of the largest number a version component can hold.
pub open spec fn largest_number_text() -> Seq<char> {
    seq![
        '1', '8', '4', '4', '6', '7', '4', '4', '0', '7',
        '3', '7', '0', '9', '5', '5', '1', '6', '1', '5',
    ]
}

/// Whether `text` ends with `tail`.
pub open spec fn ends_with(text: Seq<char>, tail: Seq<char>) -> bool {
    text.len() >= tail.len() && text.subrange(text.len() - tail.len(), text.len() as int) == tail
}

impl VersionView {
    /// The next major version: minor and patch reset, identifiers dropped.
    pub open spec fn major_raised(self) -> VersionView {
        VersionView {
            major: self.major + 1,
            minor: 0,
            patch: 0,
            pre: Seq::<char>::empty(),
            build: Seq::<char>::empty(),
        }
    }

    /// The next minor version: patch reset, identifiers dropped.
    pub open spec fn minor_raised(self) -> VersionView {
        VersionView {
            major: self.major,
            minor: self.minor + 1,
            patch: 0,
            pre: Seq::<char>::empty(),
            build: Seq::<char>::empty(),
        }
    }

    /// The next patch version: identifiers dropped.
    pub open spec fn patch_raised(self) -> VersionView {
        VersionView {
            major: self.major,
            minor: self.minor,
            patch: self.patch + 1,
            pre: Seq::<char>::empty(),
            build: Seq::<char>::empty(),
        }
    }

    /// The same version without its pre-release identifier.
    pub open spec fn released(self) -> VersionView {
        VersionView { pre: Seq::<char>::empty(), ..self }
    }

    /// The same version with other build metadata.
    pub open spec fn with_build(self, build: Seq<char>) -> VersionView {
        VersionView { build: build, ..self }
    }

    /// A pre-release increment can be computed in 64 bits: the patch number
    /// can grow where there is no pre-release yet, and the pre-release does
    /// not end in the largest number.
    pub open spec fn stage_in_range(self) -> bool {
        (self.is_prerelease() || self.patch < u64::MAX) && !ends_with(
            self.pre,
            largest_number_text(),
        )
    }

    /// The version as it is written: the three numbers with dots between
    /// them, then the pre-release behind a hyphen and the build metadata
    /// behind a plus sign, where there are any.
    pub open spec fn text(self) -> Seq<char> {
        decimal(self.major) + seq!['.'] + decimal(self.minor) + seq!['.'] + decimal(self.patch)
            + marked('-', self.pre) + marked('+', self.build)
    }

    /// Whether `self` comes strictly before `other`: by the three numbers
    /// from left to right, then by the pre-release identifiers, then by the
    /// build metadata.
    pub open spec fn precedes(self, other: VersionView) -> bool {
        if self.major != other.major {
            self.major < other.major
        } else if self.minor != other.minor {
            self.minor < other.minor
        } else if self.patch != other.patch {
            self.patch < other.patch
        } else if prerelease_precedes(self.pre, other.pre) {
            true
        } else if prerelease_precedes(other.pre, self.pre) {
            false
        } else {
            build_precedes(self.build, other.build)
        }
    }

    /// Both identifiers can be handed to `semver`.
    pub open spec fn well_formed(self) -> bool {
        prerelease_fits(self.pre) && build_fits(self.build)
    }

    /// Whether the version carries a pre-release identifier.
    pub open spec fn is_prerelease(self) -> bool {
        self.pre.len() > 0
    }
}

/// Calls `semver::Prerelease::new` and reports whether it succeeded. The
/// contract only names that outcome.
#[verifier::external_body]
fn prerelease_is_accepted(text: &str) -> (ok: bool)
    ensures
        ok == prerelease_accepted(text@),
{
    semver::Prerelease::new(text).is_ok()
}

/// Calls `semver::BuildMetadata::new` and reports whether it succeeded. The
/// contract only names that outcome.
#[verifier::external_body]
fn build_is_accepted(text: &str) -> (ok: bool)
    ensures
        ok == build_accepted(text@),
{
    semver::BuildMetadata::new(text).is_ok()
}

/// A semantic version held as plain values. Every value of this type carries
/// identifiers that can be handed to `semver`: each is empty or accepted by
/// it.
#[derive(Debug)]
pub struct Version {
    pub(crate) major: u64,
    pub(crate) minor: u64,
    pub(crate) patch: u64,
    pub(crate) pre: String,
    pub(crate) build: String,
}

impl View for Version {
    type V = VersionView;

    closed spec fn view(&self) -> VersionView {
        VersionView {
            major: self.major as nat,
            minor: self.minor as nat,
            patch: self.patch as nat,
            pre: self.pre@,
            build: self.build@,
        }
    }
}

/// Compares two pre-release identifiers with the `<` that `semver` gives
/// `semver::Prerelease`. Both are built with `semver::Prerelease::new`
/// first, which takes the empty text for the empty identifier and any other
/// text only if it accepts it. The contract only names the outcome.
#[verifier::external_body]
fn prerelease_is_before(left: &str, right: &str) -> (before: bool)
    requires
        prerelease_fits(left@),
        prerelease_fits(right@),
    ensures
        before == prerelease_precedes(left@, right@),
{
    semver::Prerelease::new(left).unwrap() < semver::Prerelease::new(right).unwrap()
}

/// Compares two build-metadata identifiers with the `<` that `semver` gives
/// `semver::BuildMetadata`. Both are built with `semver::BuildMetadata::new`
/// first, which takes the empty text for the empty identifier and any other
/// text only if it accepts it. The contract only names the outcome.
#[verifier::external_body]
fn build_is_before(left: &str, right: &str) -> (before: bool)
    requires
        build_fits(left@),
        build_fits(right@),
    ensures
        before == build_precedes(left@, right@),
{
    semver::BuildMetadata::new(left).unwrap() < semver::BuildMetadata::new(right).unwrap()
}

/// Prints a version with the `Display` impl of `semver::Version`, after
/// rebuilding it field by field. The contract spells the text out as that
/// impl writes it where no width is asked for: the numbers in decimal with
/// dots between them, then `-` and the pre-release, then `+` and the build
/// metadata, each only where the identifier is not empty.
#[verifier::external_body]
fn version_to_text(version: &Version) -> (text: String)
    requires
        version@.well_formed(),
    ensures
        text@ == version@.text(),
{
    let v = semver::Version {
        major: version.major,
        minor: version.minor,
        patch: version.patch,
        pre: semver::Prerelease::new(&version.pre).unwrap(),
        build: semver::BuildMetadata::new(&version.build).unwrap(),
    };
    v.to_string()
}

/// The content of the outcome of a pre-release increment.
pub open spec fn raised_view(outcome: Result<Version, String>) -> Result<VersionView, Seq<char>> {
    match outcome {
        Ok(version) => Ok(version@),
        Err(message) => Err(message@),
    }
}

/// Calls `cargo_edit::VersionExt::increment_alpha` on the version, rebuilt
/// field by field as a `semver::Version`, and hands back the changed version
/// or the text of the error. The contract names the outcome; of a new
/// version it adds that its identifiers came out of `semver`. The inputs on
/// which the increment would leave 64 bits are kept out.
#[verifier::external_body]
fn raise_alpha(version: &Version) -> (raised: Result<Version, String>)
    requires
        version@.well_formed(),
        version@.stage_in_range(),
    ensures
        raised_view(raised) == alpha_raised(version@),
        raised matches Ok(v) ==> v@.well_formed(),
{
    let pre = semver::Prerelease::new(&version.pre).unwrap();
    let build = semver::BuildMetadata::new(&version.build).unwrap();
    let (major, minor, patch) = (version.major, version.minor, version.patch);
    let mut v = semver::Version { major, minor, patch, pre, build };
    match cargo_edit::VersionExt::increment_alpha(&mut v) {
        Ok(()) => {
            let (pre, build) = (v.pre.as_str().to_owned(), v.build.as_str().to_owned());
            Ok(Version { major: v.major, minor: v.minor, patch: v.patch, pre, build })
        },
        Err(e) => Err(e.to_string()),
    }
}

/// Calls `cargo_edit::VersionExt::increment_beta` on the version, rebuilt
/// field by field as a `semver::Version`, and hands back the changed version
/// or the text of the error. The contract names the outcome; of a new
/// version it adds that its identifiers came out of `semver`. The inputs on
/// which the increment would leave 64 bits are kept out.
#[verifier::external_body]
fn raise_beta(version: &Version) -> (raised: Result<Version, String>)
    requires
        version@.well_formed(),
        version@.stage_in_range(),
    ensures
        raised_view(raised) == beta_raised(version@),
        raised matches Ok(v) ==> v@.well_formed(),
{
    let pre = semver::Prerelease::new(&version.pre).unwrap();
    let build = semver::BuildMetadata::new(&version.build).unwrap();
    let (major, minor, patch) = (version.major, version.minor, version.patch);
    let mut v = semver::Version { major, minor, patch, pre, build };
    match cargo_edit::VersionExt::increment_beta(&mut v) {
        Ok(()) => {
            let (pre, build) = (v.pre.as_str().to_owned(), v.build.as_str().to_owned());
            Ok(Version { major: v.major, minor: v.minor, patch: v.patch, pre, build })
        },
        Err(e) => Err(e.to_string()),
    }
}

/// Calls `cargo_edit::VersionExt::increment_rc` on the version, rebuilt
/// field by field as a `semver::Version`, and hands back the changed version
/// or the text of the error. The contract names the outcome; of a new
/// version it adds that its identifiers came out of `semver`. The inputs on
/// which the increment would leave 64 bits are kept out.
#[verifier::external_body]
fn raise_rc(version: &Version) -> (raised: Result<Version, String>)
    requires
        version@.well_formed(),
        version@.stage_in_range(),
    ensures
        raised_view(raised) == rc_raised(version@),
        raised matches Ok(v) ==> v@.well_formed(),
{
    let pre = semver::Prerelease::new(&version.pre).unwrap();
    let build = semver::BuildMetadata::new(&version.build).unwrap();
    let (major, minor, patch) = (version.major, version.minor, version.patch);
    let mut v = semver::Version { major, minor, patch, pre, build };
    match cargo_edit::VersionExt::increment_rc(&mut v) {
        Ok(()) => {
            let (pre, build) = (v.pre.as_str().to_owned(), v.build.as_str().to_owned());
            Ok(Version { major: v.major, minor: v.minor, patch: v.patch, pre, build })
        },
        Err(e) => Err(e.to_string()),
    }
}

/// Whether `text` ends with the digits of the largest 64-bit number.
pub fn ends_with_largest_number(text: &str) -> (yes: bool)
    ensures
        yes == ends_with(text@, largest_number_text()),
{
    let tail: [char; 20] = [
        '1', '8', '4', '4', '6', '7', '4', '4', '0', '7',
        '3', '7', '0', '9', '5', '5', '1', '6', '1', '5',
    ];
    let len: usize = text.unicode_len();
    if len < 20 {
        return false;
    }
    let start: usize = len - 20;
    let mut i: usize = 0;
    while i < 20
        invariant
            i <= 20,
            len == text@.len(),
            start == len - 20,
            tail@ == largest_number_text(),
            forall|k: int| 0 <= k < i ==> text@[start + k] == tail@[k],
        decreases 20 - i,
    {
        if text.get_char(start + i) != tail[i] {
            proof {
                let cut = text@.subrange(text@.len() - 20, text@.len() as int);
                assert(cut[i as int] == text@[start + i]);
            }
            return false;
        }
        i = i + 1;
    }
    assert(text@.subrange(text@.len() - 20, text@.len() as int) =~= largest_number_text());
    true
}

impl Version {
    /// Holds of every version: both identifiers can be handed to `semver`.
    #[verifier::type_invariant]
    pub open spec fn identifiers_accepted(self) -> bool {
        self@.well_formed()
    }

    /// Builds a version from its parts; `None` when `semver` rejects one of
    /// the two identifiers.
    pub fn new(major: u64, minor: u64, patch: u64, pre: &str, build: &str) -> (made: Option<
        Version,
    >)
        ensures
            made is Some <==> prerelease_accepted(pre@) && build_accepted(build@),
            made matches Some(v) ==> v@ == (VersionView {
                major: major as nat,
                minor: minor as nat,
                patch: patch as nat,
                pre: pre@,
                build: build@,
            }),
    {
        if prerelease_is_accepted(pre) && build_is_accepted(build) {
            Some(Version { major, minor, patch, pre: pre.to_owned(), build: build.to_owned() })
        } else {
            None
        }
    }

    /// A release version: no pre-release, no build metadata.
    pub fn release(major: u64, minor: u64, patch: u64) -> (made: Version)
        ensures
            made@ == (VersionView {
                major: major as nat,
                minor: minor as nat,
                patch: patch as nat,
                pre: Seq::<char>::empty(),
                build: Seq::<char>::empty(),
            }),
    {
        Version { major, minor, patch, pre: String::new(), build: String::new() }
    }

    pub fn major(&self) -> (n: u64)
        ensures
            n == self@.major,
    {
        self.major
    }

    pub fn minor(&self) -> (n: u64)
        ensures
            n == self@.minor,
    {
        self.minor
    }

    pub fn patch(&self) -> (n: u64)
        ensures
            n == self@.patch,
    {
        self.patch
    }

    pub fn pre(&self) -> (text: &str)
        ensures
            text@ == self@.pre,
    {
        self.pre.as_str()
    }

    pub fn build(&self) -> (text: &str)
        ensures
            text@ == self@.build,
    {
        self.build.as_str()
    }

    /// Whether the version carries a pre-release identifier.
    pub fn is_prerelease(&self) -> (yes: bool)
        ensures
            yes == self@.is_prerelease(),
    {
        !self.pre.as_str().is_empty()
    }

    /// A copy with the same content.
    pub fn duplicate(&self) -> (copy: Version)
        ensures
            copy@ == self@,
    {
        proof {
            use_type_invariant(self);
        }
        Version {
            major: self.major,
            minor: self.minor,
            patch: self.patch,
            pre: self.pre.clone(),
            build: self.build.clone(),
        }
    }

    /// Whether two versions have the same numbers and identifiers.
    pub fn same_as(&self, other: &Version) -> (same: bool)
        ensures
            same == (self@ == other@),
    {
        self.major == other.major && self.minor == other.minor && self.patch == other.patch
            && self.pre == other.pre && self.build == other.build
    }

    /// Whether `self` comes strictly before `other` in the order that
    /// `semver` gives versions: field by field, from the major number to the
    /// build metadata.
    pub fn precedes(&self, other: &Version) -> (before: bool)
        ensures
            before == self@.precedes(other@),
    {
        proof {
            use_type_invariant(self);
            use_type_invariant(other);
        }
        if self.major != other.major {
            self.major < other.major
        } else if self.minor != other.minor {
            self.minor < other.minor
        } else if self.patch != other.patch {
            self.patch < other.patch
        } else if prerelease_is_before(self.pre.as_str(), other.pre.as_str()) {
            true
        } else if prerelease_is_before(other.pre.as_str(), self.pre.as_str()) {
            false
        } else {
            build_is_before(self.build.as_str(), other.build.as_str())
        }
    }

    /// The version as `semver` prints it.
    pub fn to_text(&self) -> (text: String)
        ensures
            text@ == self@.text(),
    {
        proof {
            use_type_invariant(self);
        }
        version_to_text(self)
    }
    /// The next major version: minor and patch reset, identifiers dropped.
    pub fn raise_major(&self) -> (raised: Version)
        requires
            self@.major < u64::MAX,
        ensures
            raised@ == self@.major_raised(),
    {
        Version::release(self.major + 1, 0, 0)
    }

    /// The next minor version: patch reset, identifiers dropped.
    pub fn raise_minor(&self) -> (raised: Version)
        requires
            self@.minor < u64::MAX,
        ensures
            raised@ == self@.minor_raised(),
    {
        Version::release(self.major, self.minor + 1, 0)
    }

    /// The next patch version: identifiers dropped.
    pub fn raise_patch(&self) -> (raised: Version)
        requires
            self@.patch < u64::MAX,
        ensures
            raised@ == self@.patch_raised(),
    {
        Version::release(self.major, self.minor, self.patch + 1)
    }

    /// The same version without its pre-release identifier.
    pub fn to_release(&self) -> (plain: Version)
        ensures
            plain@ == self@.released(),
    {
        proof {
            use_type_invariant(self);
        }
        Version {
            major: self.major,
            minor: self.minor,
            patch: self.patch,
            pre: String::new(),
            build: self.build.clone(),
        }
    }

    /// The same version with `build` as its build metadata; `None` when
    /// `semver` rejects `build`.
    pub fn replace_build(&self, build: &str) -> (made: Option<Version>)
        ensures
            made is Some <==> build_accepted(build@),
            made matches Some(v) ==> v@ == self@.with_build(build@),
    {
        proof {
            use_type_invariant(self);
        }
        if build_is_accepted(build) {
            Some(
                Version {
                    major: self.major,
                    minor: self.minor,
                    patch: self.patch,
                    pre: self.pre.clone(),
                    build: build.to_owned(),
                },
            )
        } else {
            None
        }
    }

    /// The same version with the build metadata of `other`.
    pub fn with_build_of(&self, other: &Version) -> (made: Version)
        ensures
            made@ == self@.with_build(other@.build),
    {
        proof {
            use_type_invariant(self);
            use_type_invariant(other);
        }
        Version {
            major: self.major,
            minor: self.minor,
            patch: self.patch,
            pre: self.pre.clone(),
            build: other.build.clone(),
        }
    }

    /// The next alpha pre-release, as `cargo_edit` computes it, or the text of
    /// its refusal.
    pub fn raise_to_alpha(&self) -> (raised: Result<Version, String>)
        requires
            self@.stage_in_range(),
        ensures
            raised_view(raised) == alpha_raised(self@),
    {
        proof {
            use_type_invariant(self);
        }
        raise_alpha(self)
    }

    /// The next beta pre-release, as `cargo_edit` computes it, or the text of
    /// its refusal.
    pub fn raise_to_beta(&self) -> (raised: Result<Version, String>)
        requires
            self@.stage_in_range(),
        ensures
            raised_view(raised) == beta_raised(self@),
    {
        proof {
            use_type_invariant(self);
        }
        raise_beta(self)
    }

    /// The next release candidate, as `cargo_edit` computes it, or the text of
    /// its refusal.
    pub fn raise_to_rc(&self) -> (raised: Result<Version, String>)
        requires
            self@.stage_in_range(),
        ensures
            raised_view(raised) == rc_raised(self@),
    {
        proof {
            use_type_invariant(self);
        }
        raise_rc(self)
    }

    /// Whether a pre-release increment of this version stays within 64 bits.
    pub fn stage_in_range(&self) -> (yes: bool)
        ensures
            yes == self@.stage_in_range(),
    {
        (self.is_prerelease() || self.patch < u64::MAX) && !ends_with_largest_number(
            self.pre.as_str(),
        )
    }
}

} // verus!
