use crate::driver::owned_view;
use crate::driver::Driver;
use crate::driver::DriverView;
use crate::driver::Phase;
use crate::package::Package;
use crate::package::WorkspaceMember;
use crate::target::select_target;
use crate::target::spec_select_target;
use crate::target::BumpLevel;
use crate::version::Version;
use vstd::prelude::*;

verus! {

/// What the command line asks for.
#[derive(Debug)]
pub struct VersionArgs {
    /// Version to change manifests to.
    pub target: Option<Version>,
    /// Increment manifest version.
    pub bump: Option<BumpLevel>,
    /// The build metadata to give the new version.
    pub metadata: Option<String>,
    /// Path to the manifest to upgrade.
    pub manifest_path: Option<String>,
    /// The package to change the version of.
    pub pkgid: Option<String>,
    /// Modify all packages in the workspace; deprecated.
    pub all: bool,
    /// Modify all packages in the workspace.
    pub workspace: bool,
    /// Compute and report changes without writing them.
    pub dry_run: bool,
    /// Packages to leave alone.
    pub exclude: Vec<String>,
}

impl VersionArgs {
    /// Whether the arguments can be carried out: a version and a bump level
    /// exclude each other.
    pub open spec fn consistent(self) -> bool {
        !(self.target is Some && self.bump is Some)
    }

    /// The run that the arguments ask for, before its first step.
    pub open spec fn spec_exec(self) -> DriverView {
        DriverView {
            target: spec_select_target(self.target, self.bump),
            metadata: owned_view(self.metadata),
            manifest_path: owned_view(self.manifest_path),
            pkgid: owned_view(self.pkgid),
            all: self.all,
            workspace: self.workspace,
            dry_run: self.dry_run,
            exclude: self.exclude@,
            packages: Seq::<Package>::empty(),
            members: Seq::<WorkspaceMember>::empty(),
            phase: Phase::Start,
            package: 0,
            member: 0,
            next: None,
            root: None,
        }
    }

    /// Whether at most one of a version and a bump level was asked for.
    pub fn is_consistent(&self) -> (yes: bool)
        ensures
            yes == self.consistent(),
    {
        !(self.target.is_some() && self.bump.is_some())
    }

    /// Sets up the run that the arguments ask for. The run is then driven by
    /// [`Driver::step`], beginning with [`crate::driver::Event::Begin`].
    pub fn exec(self) -> (run: Driver)
        requires
            self.consistent(),
        ensures
            run@ == self.spec_exec(),
            run@.well_formed(),
    {
        let target = select_target(self.target, self.bump);
        Driver::new(
            target,
            self.metadata,
            self.manifest_path,
            self.pkgid,
            self.all,
            self.workspace,
            self.dry_run,
            self.exclude,
        )
    }
}

} // verus!
