use crate::plan::spec_upgrading_message;
use crate::plan::upgrading_message;
use crate::plan::MessageView;
use crate::plan::StatusMessage;
use crate::target::spec_bump;
use crate::target::text_view;
use crate::target::BumpError;
use crate::target::BumpErrorView;
use crate::target::TargetVersion;
use crate::target::TargetView;
use crate::version::Version;
use crate::version::VersionView;
use vstd::prelude::*;

verus! {

/// A package whose own manifest may get a new version.
#[derive(Debug)]
pub struct Package {
    pub name: String,
    pub version: Version,
    pub manifest_path: String,
}

/// A manifest that is scanned for dependents.
#[derive(Debug)]
pub struct WorkspaceMember {
    pub name: String,
    pub manifest_path: String,
}

/// Whether `name` is one of `names`.
pub open spec fn spec_listed(names: Seq<String>, name: Seq<char>) -> bool {
    exists|i: int| 0 <= i < names.len() && (#[trigger] names[i])@ == name
}

/// Whether `name` is one of `names`.
pub fn listed(names: &Vec<String>, name: &str) -> (yes: bool)
    ensures
        yes == spec_listed(names@, name@),
{
    let wanted = name.to_owned();
    let mut i: usize = 0;
    while i < names.len()
        invariant
            i <= names.len(),
            wanted@ == name@,
            forall|k: int| 0 <= k < i ==> (#[trigger] names@[k])@ != name@,
        decreases names.len() - i,
    {
        if names[i] == wanted {
            return true;
        }
        i = i + 1;
    }
    false
}

/// What is decided about one package in scope.
#[derive(Debug)]
pub enum PackageStep {
    /// The package is on the exclusion list; the resolver was not asked.
    Excluded,
    /// The resolver found nothing to change; the package is passed over.
    Unchanged,
    /// The package gets the version `next`.
    Bump {
        next: Version,
        /// The report of the change.
        message: StatusMessage,
        /// Whether the package's manifest is to be written back.
        write: bool,
    },
}

/// The content of a [`PackageStep`].
pub enum StepView {
    Excluded,
    Unchanged,
    Bump { next: VersionView, message: MessageView, write: bool },
}

impl View for PackageStep {
    type V = StepView;

    open spec fn view(&self) -> StepView {
        match self {
            PackageStep::Excluded => StepView::Excluded,
            PackageStep::Unchanged => StepView::Unchanged,
            PackageStep::Bump { next, message, write } => StepView::Bump {
                next: next@,
                message: message@,
                write: *write,
            },
        }
    }
}

/// The content of the outcome of [`plan_package`].
pub open spec fn step_view(outcome: Result<PackageStep, BumpError>) -> Result<
    StepView,
    BumpErrorView,
> {
    match outcome {
        Ok(step) => Ok(step@),
        Err(error) => Err(error@),
    }
}

/// What is decided about a package called `name` at version `current`.
///
/// A package on the exclusion list is excluded before anything else is
/// looked at. Otherwise the target is resolved against the current version:
/// an error is handed on, no change passes the package over, and a new
/// version is reported and written unless the run is a dry one.
pub open spec fn spec_package_step(
    name: Seq<char>,
    current: VersionView,
    exclude: Seq<String>,
    target: TargetView,
    metadata: Option<Seq<char>>,
    dry_run: bool,
) -> Result<StepView, BumpErrorView> {
    if spec_listed(exclude, name) {
        Ok(StepView::Excluded)
    } else {
        match spec_bump(target, current, metadata) {
            Err(error) => Err(error),
            Ok(None) => Ok(StepView::Unchanged),
            Ok(Some(next)) => Ok(
                StepView::Bump {
                    next,
                    message: spec_upgrading_message(name, current, next),
                    write: !dry_run,
                },
            ),
        }
    }
}

/// Decides what happens to one package in scope.
pub fn plan_package(
    package: &Package,
    exclude: &Vec<String>,
    target: &TargetVersion,
    metadata: Option<&str>,
    dry_run: bool,
) -> (outcome: Result<PackageStep, BumpError>)
    ensures
        step_view(outcome) == spec_package_step(
            package.name@,
            package.version@,
            exclude@,
            target@,
            text_view(metadata),
            dry_run,
        ),
{
    if listed(exclude, package.name.as_str()) {
        return Ok(PackageStep::Excluded);
    }
    match target.bump(&package.version, metadata) {
        Err(error) => Err(error),
        Ok(None) => Ok(PackageStep::Unchanged),
        Ok(Some(next)) => {
            let message = upgrading_message(package.name.as_str(), &package.version, &next);
            Ok(PackageStep::Bump { next, message, write: !dry_run })
        },
    }
}

/// A package on the exclusion list is excluded whatever its version and
/// whatever the target: the resolver has no say.
pub proof fn law_listed_package_is_excluded(
    name: Seq<char>,
    current: VersionView,
    exclude: Seq<String>,
    target: TargetView,
    metadata: Option<Seq<char>>,
    dry_run: bool,
)
    requires
        spec_listed(exclude, name),
    ensures
        spec_package_step(name, current, exclude, target, metadata, dry_run) == Ok::<
            StepView,
            BumpErrorView,
        >(StepView::Excluded),
{
}

/// A package that already is at the explicit target version is passed over:
/// it gets no new version and no message.
pub proof fn law_settled_package_is_passed_over(
    name: Seq<char>,
    current: VersionView,
    exclude: Seq<String>,
    metadata: Option<Seq<char>>,
    dry_run: bool,
)
    ensures
        spec_package_step(
            name,
            current,
            exclude,
            TargetView::Absolute(current),
            metadata,
            dry_run,
        ) == Ok::<StepView, BumpErrorView>(
            if spec_listed(exclude, name) {
                StepView::Excluded
            } else {
                StepView::Unchanged
            },
        ),
{
}

/// What is decided about a package in a dry run is what is decided in a real
/// one, but that nothing is written.
pub proof fn law_dry_step_differs_in_writing_alone(
    name: Seq<char>,
    current: VersionView,
    exclude: Seq<String>,
    target: TargetView,
    metadata: Option<Seq<char>>,
)
    ensures
        match spec_package_step(name, current, exclude, target, metadata, false) {
            Ok(StepView::Bump { next, message, write }) => write && spec_package_step(
                name,
                current,
                exclude,
                target,
                metadata,
                true,
            ) == Ok::<StepView, BumpErrorView>(StepView::Bump { next, message, write: false }),
            other => spec_package_step(name, current, exclude, target, metadata, true) == other,
        },
{
}

} // verus!
