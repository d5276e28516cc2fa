use crate::matcher::CrateRoot;
use crate::matcher::DependencyEntry;
use crate::package::plan_package;
use crate::package::spec_listed;
use crate::package::spec_package_step;
use crate::package::Package;
use crate::package::PackageStep;
use crate::package::StepView;
use crate::package::WorkspaceMember;
use crate::plan::plan_dependent;
use crate::plan::spec_plan;
use crate::plan::DependentPlan;
use crate::plan::MessageView;
use crate::plan::PlanView;
use crate::plan::StatusMessage;
use crate::target::BumpError;
use crate::target::BumpErrorView;
use crate::target::TargetVersion;
use crate::target::TargetView;
use crate::version::Version;
use crate::version::VersionView;
use vstd::prelude::*;

verus! {

/// Where a run stands.
#[derive(Clone, Copy, Debug, PartialEq, Eq, Structural)]
pub enum Phase {
    /// Nothing has happened yet.
    Start,
    /// The packages in scope and the workspace members are being collected.
    Collecting,
    /// The packages from the current one on are still to be decided.
    Pending,
    /// The current package has its new version; its own manifest is being
    /// rewritten.
    Resolved,
    /// The current package's own manifest is dealt with; its directory is
    /// being located.
    SelfWritten,
    /// The dependency entries of the current member are being read.
    Scanning,
    /// The changes to the current member are being applied.
    Applying,
    /// The run is over.
    Done,
}

/// What happened outside since the last step.
#[derive(Debug)]
pub enum Event {
    /// The run begins.
    Begin,
    /// The packages in scope and the members of the workspace.
    Collected { packages: Vec<Package>, members: Vec<WorkspaceMember> },
    /// The last action was carried out.
    Completed,
    /// The canonical directory of the current package's manifest.
    Located { root: CrateRoot },
    /// The dependency entries of the current member's manifest, table by
    /// table, in the order of the manifest.
    Read { entries: Vec<DependencyEntry> },
}

/// Why a run ends before its time.
#[derive(Debug)]
pub enum RunError {
    /// No next version could be computed for a package.
    Bump(BumpError),
    /// An event came that the run was not waiting for.
    OutOfTurn,
}

/// The content of a [`RunError`].
pub enum RunErrorView {
    Bump(BumpErrorView),
    OutOfTurn,
}

impl View for RunError {
    type V = RunErrorView;

    open spec fn view(&self) -> RunErrorView {
        match self {
            RunError::Bump(error) => RunErrorView::Bump(error@),
            RunError::OutOfTurn => RunErrorView::OutOfTurn,
        }
    }
}

/// What is to be done outside before the next step.
#[derive(Debug)]
pub enum Action {
    /// Show the warning, if there is one, then collect the packages in scope
    /// and the workspace members, starting from the manifest at
    /// `manifest_path` or else from the one of the current directory, and
    /// answer with [`Event::Collected`]. In scope are all packages of the
    /// workspace if `workspace` is set, else those named in `packages`, else
    /// the one of the starting manifest.
    Collect {
        warning: Option<String>,
        manifest_path: Option<String>,
        workspace: bool,
        packages: Vec<String>,
    },
    /// Set the version in the manifest of the package at `package`, show the
    /// message, write the manifest back if `write` is set, and answer with
    /// [`Event::Completed`].
    UpdatePackage { package: usize, version: Version, message: StatusMessage, write: bool },
    /// Canonicalize the directory of the manifest of the package at
    /// `package` and answer with [`Event::Located`].
    LocateRoot { package: usize },
    /// Read the manifest of the member at `member` and answer with
    /// [`Event::Read`].
    ReadMember { member: usize },
    /// Apply the plan to the manifest of the member at `member`: set the new
    /// requirements, show the messages, then fail with the plan's failure if
    /// it has one, else write the manifest back if the plan says so and
    /// answer with [`Event::Completed`].
    UpdateMember { member: usize, plan: DependentPlan },
    /// The run is complete; show the warning, if there is one.
    Finish { warning: Option<String> },
    /// The run cannot go on.
    Fail { error: RunError },
}

/// The content of an [`Action`].
pub enum ActionView {
    Collect {
        warning: Option<Seq<char>>,
        manifest_path: Option<Seq<char>>,
        workspace: bool,
        packages: Seq<Seq<char>>,
    },
    UpdatePackage { package: int, version: VersionView, message: MessageView, write: bool },
    LocateRoot { package: int },
    ReadMember { member: int },
    UpdateMember { member: int, plan: PlanView },
    Finish { warning: Option<Seq<char>> },
    Fail { error: RunErrorView },
}

/// The content of an optional owned text.
pub open spec fn owned_view(text: Option<String>) -> Option<Seq<char>> {
    match text {
        Some(t) => Some(t@),
        None => None,
    }
}

/// The content of a list of texts.
pub open spec fn texts_view(texts: Seq<String>) -> Seq<Seq<char>> {
    texts.map_values(|text: String| text@)
}

/// The names that a package selection comes to: the one that was given, or
/// none.
pub open spec fn selected(pkgid: Option<Seq<char>>) -> Seq<Seq<char>> {
    match pkgid {
        Some(name) => seq![name],
        None => Seq::<Seq<char>>::empty(),
    }
}

impl View for Action {
    type V = ActionView;

    open spec fn view(&self) -> ActionView {
        match self {
            Action::Collect { warning, manifest_path, workspace, packages } => ActionView::Collect {
                warning: owned_view(*warning),
                manifest_path: owned_view(*manifest_path),
                workspace: *workspace,
                packages: texts_view(packages@),
            },
            Action::UpdatePackage { package, version, message, write } => {
                ActionView::UpdatePackage {
                    package: *package as int,
                    version: version@,
                    message: message@,
                    write: *write,
                }
            },
            Action::LocateRoot { package } => ActionView::LocateRoot { package: *package as int },
            Action::ReadMember { member } => ActionView::ReadMember { member: *member as int },
            Action::UpdateMember { member, plan } => ActionView::UpdateMember {
                member: *member as int,
                plan: plan@,
            },
            Action::Finish { warning } => ActionView::Finish { warning: owned_view(*warning) },
            Action::Fail { error } => ActionView::Fail { error: error@ },
        }
    }
}

/// The warning about the flag `--all`.
pub open spec fn deprecation_notice() -> Seq<char> {
    "The flag `--all` has been deprecated in favor of `--workspace`"@
}

/// The warning that ends a dry run.
pub open spec fn dry_run_notice() -> Seq<char> {
    "aborting set-version due to dry run"@
}

/// A run of version propagation: what was asked for, what was collected, and
/// how far the run has come.
#[derive(Debug)]
pub struct Driver {
    target: TargetVersion,
    metadata: Option<String>,
    manifest_path: Option<String>,
    pkgid: Option<String>,
    all: bool,
    workspace: bool,
    dry_run: bool,
    exclude: Vec<String>,
    packages: Vec<Package>,
    members: Vec<WorkspaceMember>,
    phase: Phase,
    package: usize,
    member: usize,
    next: Option<Version>,
    root: Option<CrateRoot>,
}

/// The content of a [`Driver`].
pub struct DriverView {
    pub target: TargetView,
    pub metadata: Option<Seq<char>>,
    pub manifest_path: Option<Seq<char>>,
    pub pkgid: Option<Seq<char>>,
    pub all: bool,
    pub workspace: bool,
    pub dry_run: bool,
    pub exclude: Seq<String>,
    pub packages: Seq<Package>,
    pub members: Seq<WorkspaceMember>,
    pub phase: Phase,
    /// The position of the current package.
    pub package: int,
    /// The position of the current member.
    pub member: int,
    /// The new version of the current package.
    pub next: Option<VersionView>,
    /// The directory of the current package.
    pub root: Option<Seq<u8>>,
}

impl View for Driver {
    type V = DriverView;

    closed spec fn view(&self) -> DriverView {
        DriverView {
            target: self.target@,
            metadata: owned_view(self.metadata),
            manifest_path: owned_view(self.manifest_path),
            pkgid: owned_view(self.pkgid),
            all: self.all,
            workspace: self.workspace,
            dry_run: self.dry_run,
            exclude: self.exclude@,
            packages: self.packages@,
            members: self.members@,
            phase: self.phase,
            package: self.package as int,
            member: self.member as int,
            next: match self.next {
                Some(version) => Some(version@),
                None => None,
            },
            root: match self.root {
                Some(root) => Some(root@),
                None => None,
            },
        }
    }
}

/// The content of an [`Event`], as far as a step reads it.
pub enum EventView {
    Begin,
    Collected { packages: Seq<Package>, members: Seq<WorkspaceMember> },
    Completed,
    Located { root: Seq<u8> },
    Read { entries: Seq<DependencyEntry> },
}

impl View for Event {
    type V = EventView;

    open spec fn view(&self) -> EventView {
        match self {
            Event::Begin => EventView::Begin,
            Event::Collected { packages, members } => EventView::Collected {
                packages: packages@,
                members: members@,
            },
            Event::Completed => EventView::Completed,
            Event::Located { root } => EventView::Located { root: root@ },
            Event::Read { entries } => EventView::Read { entries: entries@ },
        }
    }
}

impl DriverView {
    /// What is decided about the package at `index`.
    pub open spec fn package_step(self, index: int) -> Result<StepView, BumpErrorView> {
        spec_package_step(
            self.packages[index].name@,
            self.packages[index].version@,
            self.exclude,
            self.target,
            self.metadata,
            self.dry_run,
        )
    }

    /// Whether a package has been settled on and is being worked at.
    pub open spec fn at_work(self) -> bool {
        self.phase == Phase::Resolved || self.phase == Phase::SelfWritten || self.phase
            == Phase::Scanning || self.phase == Phase::Applying
    }

    /// What holds of every run: while a package is worked at, it is one in
    /// scope that is not excluded and whose new version is the one that was
    /// resolved for it; while members are scanned, the package's directory
    /// is known and the current member is one of the workspace.
    pub open spec fn well_formed(self) -> bool {
        &&& 0 <= self.package <= self.packages.len()
        &&& 0 <= self.member <= self.members.len()
        &&& self.at_work() ==> {
            &&& self.package < self.packages.len()
            &&& self.next matches Some(next)
            &&& self.package_step(self.package) matches Ok(StepView::Bump { next: resolved, .. })
            &&& resolved == next
        }
        &&& (self.phase == Phase::Scanning || self.phase == Phase::Applying) ==> {
            &&& self.root is Some
            &&& self.member < self.members.len()
        }
    }

    /// The run stopped short with `error`.
    pub open spec fn failed(self, error: RunErrorView) -> (DriverView, ActionView) {
        (DriverView { phase: Phase::Done, ..self }, ActionView::Fail { error })
    }

    /// The run after the packages before `from` have been dealt with: the
    /// first package from there on that is neither excluded nor unchanged is
    /// taken up, an error of the resolver ends the run, and so does the end
    /// of the packages.
    pub open spec fn advance(self, from: int) -> (DriverView, ActionView)
        decreases self.packages.len() - from,
    {
        if from < 0 || from >= self.packages.len() {
            (
                DriverView { phase: Phase::Done, package: self.packages.len() as int, ..self },
                ActionView::Finish {
                    warning: if self.dry_run {
                        Some(dry_run_notice())
                    } else {
                        None
                    },
                },
            )
        } else {
            match self.package_step(from) {
                Err(error) => (DriverView { package: from, ..self }).failed(
                    RunErrorView::Bump(error),
                ),
                Ok(StepView::Bump { next, message, write }) => (
                    DriverView {
                        phase: Phase::Resolved,
                        package: from,
                        member: 0,
                        next: Some(next),
                        root: None,
                        ..self
                    },
                    ActionView::UpdatePackage { package: from, version: next, message, write },
                ),
                Ok(_) => self.advance(from + 1),
            }
        }
    }

    /// The run after the members before `from` have been dealt with for the
    /// current package: the member at `from` is read, or, past the last one,
    /// the next package is taken up.
    pub open spec fn scan_from(self, from: int) -> (DriverView, ActionView) {
        if 0 <= from < self.members.len() {
            (
                DriverView { phase: Phase::Scanning, member: from, ..self },
                ActionView::ReadMember { member: from },
            )
        } else {
            (DriverView {
                phase: Phase::Pending,
                member: self.members.len() as int,
                ..self
            }).advance(self.package + 1)
        }
    }

    /// The step that a run takes on an event: the state it is in afterwards
    /// and what is to be done outside.
    pub open spec fn step(self, event: EventView) -> (DriverView, ActionView) {
        match (self.phase, event) {
            (Phase::Start, EventView::Begin) => (
                DriverView { phase: Phase::Collecting, ..self },
                ActionView::Collect {
                    warning: if self.all {
                        Some(deprecation_notice())
                    } else {
                        None
                    },
                    manifest_path: self.manifest_path,
                    workspace: self.workspace || self.all,
                    packages: selected(self.pkgid),
                },
            ),
            (Phase::Collecting, EventView::Collected { packages, members }) => (DriverView {
                phase: Phase::Pending,
                packages,
                members,
                package: 0,
                member: 0,
                ..self
            }).advance(0),
            (Phase::Resolved, EventView::Completed) => (
                DriverView { phase: Phase::SelfWritten, ..self },
                ActionView::LocateRoot { package: self.package },
            ),
            (Phase::SelfWritten, EventView::Located { root }) => (DriverView {
                root: Some(root),
                ..self
            }).scan_from(0),
            (Phase::Scanning, EventView::Read { entries }) => {
                let plan = spec_plan(
                    self.members[self.member].name@,
                    entries,
                    self.root->0,
                    self.next->0,
                    self.dry_run,
                );
                (
                    DriverView {
                        phase: if plan.scan.failure is Some {
                            Phase::Done
                        } else {
                            Phase::Applying
                        },
                        ..self
                    },
                    ActionView::UpdateMember { member: self.member, plan },
                )
            },
            (Phase::Applying, EventView::Completed) => self.scan_from(self.member + 1),
            _ => self.failed(RunErrorView::OutOfTurn),
        }
    }
}

/// The content of an optional owned text, borrowed.
fn borrowed(text: &Option<String>) -> (out: Option<&str>)
    ensures
        crate::target::text_view(out) == owned_view(*text),
{
    match text {
        Some(t) => Some(t.as_str()),
        None => None,
    }
}

impl Driver {
    /// Holds of every run.
    #[verifier::type_invariant]
    closed spec fn sound(self) -> bool {
        self@.well_formed()
    }

    /// A run that has not begun. `manifest_path` is the manifest to start
    /// from, `pkgid` the package asked for by name; `all` and `workspace` are
    /// the two flags that ask for every package of the workspace, `all`
    /// being the deprecated one; `exclude` names the packages to leave
    /// alone.
    pub fn new(
        target: TargetVersion,
        metadata: Option<String>,
        manifest_path: Option<String>,
        pkgid: Option<String>,
        all: bool,
        workspace: bool,
        dry_run: bool,
        exclude: Vec<String>,
    ) -> (run: Driver)
        ensures
            run@ == (DriverView {
                target: target@,
                metadata: owned_view(metadata),
                manifest_path: owned_view(manifest_path),
                pkgid: owned_view(pkgid),
                all,
                workspace,
                dry_run,
                exclude: exclude@,
                packages: Seq::<Package>::empty(),
                members: Seq::<WorkspaceMember>::empty(),
                phase: Phase::Start,
                package: 0,
                member: 0,
                next: None,
                root: None,
            }),
            run@.well_formed(),
    {
        Driver {
            target,
            metadata,
            manifest_path,
            pkgid,
            all,
            workspace,
            dry_run,
            exclude,
            packages: Vec::new(),
            members: Vec::new(),
            phase: Phase::Start,
            package: 0,
            member: 0,
            next: None,
            root: None,
        }
    }

    /// Where the run stands.
    pub fn phase(&self) -> (phase: Phase)
        ensures
            phase == self@.phase,
    {
        self.phase
    }

    /// Whether the run is over.
    pub fn is_done(&self) -> (done: bool)
        ensures
            done == (self@.phase == Phase::Done),
    {
        self.phase == Phase::Done
    }

    /// The position of the package that the run is at.
    pub fn current_package(&self) -> (position: usize)
        ensures
            position == self@.package,
    {
        self.package
    }

    /// The position of the member that the run is at.
    pub fn current_member(&self) -> (position: usize)
        ensures
            position == self@.member,
    {
        self.member
    }

    /// The packages in scope, once collected.
    pub fn packages(&self) -> (packages: &Vec<Package>)
        ensures
            packages@ == self@.packages,
    {
        &self.packages
    }

    /// The members of the workspace, once collected.
    pub fn members(&self) -> (members: &Vec<WorkspaceMember>)
        ensures
            members@ == self@.members,
    {
        &self.members
    }

    /// Ends the run with `error`.
    fn fail(self, error: RunError) -> (out: (Driver, Action))
        ensures
            (out.0@, out.1@) == self@.failed(error@),
    {
        proof {
            use_type_invariant(&self);
        }
        (Driver { phase: Phase::Done, ..self }, Action::Fail { error })
    }

    /// Takes up the first package from `from` on that needs work.
    fn advance(self, from: usize) -> (out: (Driver, Action))
        requires
            from <= self@.packages.len(),
        ensures
            (out.0@, out.1@) == self@.advance(from as int),
    {
        proof {
            use_type_invariant(&self);
        }
        let mut i: usize = from;
        while i < self.packages.len()
            invariant
                from <= i <= self.packages.len(),
                self@.well_formed(),
                self@.advance(i as int) == self@.advance(from as int),
            decreases self.packages.len() - i,
        {
            let step = plan_package(
                &self.packages[i],
                &self.exclude,
                &self.target,
                borrowed(&self.metadata),
                self.dry_run,
            );
            match step {
                Err(error) => {
                    let out = (
                        Driver { phase: Phase::Done, package: i, ..self },
                        Action::Fail { error: RunError::Bump(error) },
                    );
                    return out;
                },
                Ok(PackageStep::Bump { next, message, write }) => {
                    let version = next.duplicate();
                    let out = (
                        Driver {
                            phase: Phase::Resolved,
                            package: i,
                            member: 0,
                            next: Some(next),
                            root: None,
                            ..self
                        },
                        Action::UpdatePackage { package: i, version, message, write },
                    );
                    return out;
                },
                Ok(_) => {},
            }
            i = i + 1;
        }
        let warning = if self.dry_run {
            Some("aborting set-version due to dry run".to_owned())
        } else {
            None
        };
        let package = self.packages.len();
        (Driver { phase: Phase::Done, package, ..self }, Action::Finish { warning })
    }

    /// Reads the member at `from`, or takes up the next package.
    fn scan_from(self, from: usize) -> (out: (Driver, Action))
        requires
            self@.package < self@.packages.len(),
            self@.at_work(),
            self@.root is Some,
        ensures
            (out.0@, out.1@) == self@.scan_from(from as int),
    {
        proof {
            use_type_invariant(&self);
        }
        if from < self.members.len() {
            (
                Driver { phase: Phase::Scanning, member: from, ..self },
                Action::ReadMember { member: from },
            )
        } else {
            let count = self.packages.len();
            let package = self.package + 1;
            let member = self.members.len();
            let moved = Driver { phase: Phase::Pending, member, ..self };
            moved.advance(package)
        }
    }

    /// Takes one step: given what happened outside, says what is to be done
    /// next and moves on to the state in which the answer is awaited.
    pub fn step(self, event: Event) -> (out: (Driver, Action))
        ensures
            (out.0@, out.1@) == self@.step(event@),
            out.0@.well_formed(),
    {
        proof {
            use_type_invariant(&self);
            lemma_step(self@, event@);
        }
        match (self.phase, event) {
            (Phase::Start, Event::Begin) => {
                let warning = if self.all {
                    let notice = "The flag `--all` has been deprecated in favor of `--workspace`";
                    Some(notice.to_owned())
                } else {
                    None
                };
                let workspace = self.workspace || self.all;
                let manifest_path = match &self.manifest_path {
                    Some(path) => Some(path.clone()),
                    None => None,
                };
                let mut packages: Vec<String> = Vec::new();
                match &self.pkgid {
                    Some(name) => {
                        packages.push(name.clone());
                    },
                    None => {},
                }
                proof {
                    assert(texts_view(packages@) =~= selected(owned_view(self.pkgid)));
                }
                (
                    Driver { phase: Phase::Collecting, ..self },
                    Action::Collect { warning, manifest_path, workspace, packages },
                )
            },
            (Phase::Collecting, Event::Collected { packages, members }) => {
                let taken = Driver {
                    phase: Phase::Pending,
                    packages,
                    members,
                    package: 0,
                    member: 0,
                    ..self
                };
                taken.advance(0)
            },
            (Phase::Resolved, Event::Completed) => {
                let package = self.package;
                (Driver { phase: Phase::SelfWritten, ..self }, Action::LocateRoot { package })
            },
            (Phase::SelfWritten, Event::Located { root }) => {
                let located = Driver { root: Some(root), ..self };
                located.scan_from(0)
            },
            (Phase::Scanning, Event::Read { entries }) => {
                let plan = match (&self.root, &self.next) {
                    (Some(root), Some(next)) => plan_dependent(
                        self.members[self.member].name.as_str(),
                        &entries,
                        root,
                        next,
                        self.dry_run,
                    ),
                    _ => DependentPlan::new(),
                };
                let phase = if plan.failure.is_some() {
                    Phase::Done
                } else {
                    Phase::Applying
                };
                let member = self.member;
                (Driver { phase, ..self }, Action::UpdateMember { member, plan })
            },
            (Phase::Applying, Event::Completed) => {
                let count = self.members.len();
                let from = self.member + 1;
                self.scan_from(from)
            },
            (_, _) => self.fail(RunError::OutOfTurn),
        }
    }
}

impl DriverView {
    /// Whether the package at `index` is on the exclusion list.
    pub open spec fn excluded(self, index: int) -> bool {
        spec_listed(self.exclude, self.packages[index].name@)
    }

    /// The same run as a dry one or as a real one.
    pub open spec fn with_dry_run(self, dry_run: bool) -> DriverView {
        DriverView { dry_run, ..self }
    }
}

impl ActionView {
    /// Whether the action asks for a manifest to be written back.
    pub open spec fn writes(self) -> bool {
        match self {
            ActionView::UpdatePackage { write, .. } => write,
            ActionView::UpdateMember { plan, .. } => plan.write,
            _ => false,
        }
    }

    /// The action as it is in a dry run: nothing is written, and the end of
    /// the run brings the warning that it was a dry one.
    pub open spec fn dried(self) -> ActionView {
        match self {
            ActionView::UpdatePackage { package, version, message, write } => {
                ActionView::UpdatePackage { package, version, message, write: false }
            },
            ActionView::UpdateMember { member, plan } => ActionView::UpdateMember {
                member,
                plan: PlanView { scan: plan.scan, write: false },
            },
            ActionView::Finish { warning } => ActionView::Finish {
                warning: Some(dry_run_notice()),
            },
            other => other,
        }
    }
}

/// Taking up the next package keeps a run well formed, and the package taken
/// up is never an excluded one.
proof fn lemma_advance(run: DriverView, from: int)
    requires
        0 <= from <= run.packages.len(),
        0 <= run.member <= run.members.len(),
    ensures
        run.advance(from).0.well_formed(),
        run.advance(from).0.exclude == run.exclude,
        run.advance(from).0.packages == run.packages,
        run.advance(from).0.members == run.members,
        run.advance(from).0.phase == Phase::Resolved || run.advance(from).0.phase == Phase::Done,
        run.advance(from).1 matches ActionView::UpdatePackage { package, version, .. } ==> {
            &&& from <= package < run.packages.len()
            &&& !run.excluded(package)
            &&& run.advance(from).0.phase == Phase::Resolved
            &&& run.advance(from).0.package == package
            &&& run.advance(from).0.next == Some(version)
        },
        run.advance(from).0.phase == Phase::Resolved ==> run.advance(from).1 is UpdatePackage,
        run.advance(from).1 is UpdatePackage || run.advance(from).1 is Finish || run.advance(
            from,
        ).1 is Fail,
    decreases run.packages.len() - from,
{
    if from < run.packages.len() {
        match run.package_step(from) {
            Ok(StepView::Bump { .. }) => {},
            Err(_) => {},
            Ok(_) => {
                lemma_advance(run, from + 1);
            },
        }
    }
}

/// Every step keeps a run well formed.
pub proof fn law_step_keeps_well_formed(run: DriverView, event: EventView)
    requires
        run.well_formed(),
    ensures
        run.step(event).0.well_formed(),
{
    lemma_step(run, event);
}

/// What a step comes to, for the laws below.
proof fn lemma_step(run: DriverView, event: EventView)
    requires
        run.well_formed(),
    ensures
        run.step(event).0.well_formed(),
        run.step(event).0.exclude == run.exclude,
        run.step(event).1 matches ActionView::UpdatePackage { package, .. } ==> {
            &&& 0 <= package < run.step(event).0.packages.len()
            &&& !run.step(event).0.excluded(package)
        },
        run.step(event).1 matches ActionView::LocateRoot { package } ==> {
            &&& 0 <= package < run.step(event).0.packages.len()
            &&& !run.step(event).0.excluded(package)
        },
        run.step(event).0.at_work() ==> !run.step(event).0.excluded(run.step(event).0.package),
        (run.step(event).1 is ReadMember || run.step(event).1 is UpdateMember) ==> {
            &&& 0 <= run.step(event).0.package < run.step(event).0.packages.len()
            &&& !run.step(event).0.excluded(run.step(event).0.package)
        },
{
    match (run.phase, event) {
        (Phase::Collecting, EventView::Collected { packages, members }) => {
            lemma_advance(
                DriverView {
                    phase: Phase::Pending,
                    packages,
                    members,
                    package: 0,
                    member: 0,
                    ..run
                },
                0,
            );
        },
        (Phase::SelfWritten, EventView::Located { root }) => {
            let located = DriverView { root: Some(root), ..run };
            if !(0 < located.members.len()) {
                lemma_advance(
                    DriverView {
                        phase: Phase::Pending,
                        member: located.members.len() as int,
                        ..located
                    },
                    located.package + 1,
                );
            }
        },
        (Phase::Applying, EventView::Completed) => {
            if !(run.member + 1 < run.members.len()) {
                lemma_advance(
                    DriverView { phase: Phase::Pending, member: run.members.len() as int, ..run },
                    run.package + 1,
                );
            }
        },
        _ => {},
    }
}

/// A package on the exclusion list is left alone: no step asks for its
/// manifest to be changed or for its directory to be located, and no member
/// is scanned or changed on its behalf.
pub proof fn law_excluded_packages_are_left_alone(run: DriverView, event: EventView)
    requires
        run.well_formed(),
    ensures
        run.step(event).1 matches ActionView::UpdatePackage { package, .. } ==> !run.step(
            event,
        ).0.excluded(package),
        run.step(event).1 matches ActionView::LocateRoot { package } ==> !run.step(
            event,
        ).0.excluded(package),
        (run.step(event).1 is ReadMember || run.step(event).1 is UpdateMember) ==> !run.step(
            event,
        ).0.excluded(run.step(event).0.package),
{
    lemma_step(run, event);
}

/// Taking up the next package comes to the same in a dry run as in a real
/// one, but that nothing is written.
proof fn lemma_advance_dry(run: DriverView, from: int)
    requires
        0 <= from <= run.packages.len(),
    ensures
        run.with_dry_run(true).advance(from).0 == run.with_dry_run(false).advance(
            from,
        ).0.with_dry_run(true),
        run.with_dry_run(true).advance(from).1 == run.with_dry_run(false).advance(from).1.dried(),
    decreases run.packages.len() - from,
{
    if from < run.packages.len() {
        let wet = run.with_dry_run(false);
        match wet.package_step(from) {
            Ok(StepView::Bump { .. }) => {},
            Err(_) => {},
            Ok(_) => {
                lemma_advance_dry(run, from + 1);
            },
        }
    }
}

/// A dry run takes the same steps as a real one: on every event it comes to
/// the same state and asks for the same action, with the same versions,
/// requirements and messages, but that nothing is to be written, and that
/// its end brings the warning that it was a dry run.
pub proof fn law_dry_run_differs_in_writing_alone(run: DriverView, event: EventView)
    requires
        run.well_formed(),
    ensures
        run.with_dry_run(true).step(event).0 == run.with_dry_run(false).step(
            event,
        ).0.with_dry_run(true),
        run.with_dry_run(true).step(event).1 == run.with_dry_run(false).step(event).1.dried(),
        !run.with_dry_run(true).step(event).1.writes(),
{
    match (run.phase, event) {
        (Phase::Collecting, EventView::Collected { packages, members }) => {
            lemma_advance_dry(
                DriverView {
                    phase: Phase::Pending,
                    packages,
                    members,
                    package: 0,
                    member: 0,
                    ..run
                },
                0,
            );
        },
        (Phase::SelfWritten, EventView::Located { root }) => {
            let located = DriverView { root: Some(root), ..run };
            if !(0 < located.members.len()) {
                lemma_advance_dry(
                    DriverView {
                        phase: Phase::Pending,
                        member: located.members.len() as int,
                        ..located
                    },
                    located.package + 1,
                );
            }
        },
        (Phase::Applying, EventView::Completed) => {
            if !(run.member + 1 < run.members.len()) {
                lemma_advance_dry(
                    DriverView { phase: Phase::Pending, member: run.members.len() as int, ..run },
                    run.package + 1,
                );
            }
        },
        _ => {},
    }
}

/// Where every package from `from` on is excluded or stays at its version,
/// the run ends without asking for any manifest to be touched.
pub proof fn law_nothing_to_do_ends_the_run(run: DriverView, from: int)
    requires
        0 <= from <= run.packages.len(),
        forall|i: int|
            from <= i < run.packages.len() ==> (#[trigger] run.package_step(i) == Ok::<
                StepView,
                BumpErrorView,
            >(StepView::Excluded) || run.package_step(i) == Ok::<StepView, BumpErrorView>(
                StepView::Unchanged,
            )),
    ensures
        run.advance(from).1 is Finish,
        run.advance(from).0.phase == Phase::Done,
    decreases run.packages.len() - from,
{
    if from < run.packages.len() {
        assert(run.package_step(from) == Ok::<StepView, BumpErrorView>(StepView::Excluded)
            || run.package_step(from) == Ok::<StepView, BumpErrorView>(StepView::Unchanged));
        law_nothing_to_do_ends_the_run(run, from + 1);
    }
}

impl DriverView {
    /// The steps that working at one package takes at most: two for the
    /// package itself and two for each member.
    pub open spec fn round(self) -> int {
        2 * (self.members.len() as int) + 2
    }

    /// An upper bound on the steps that a run at work still has before it:
    /// a full round for every package from the current one on, less what of
    /// the current round is done.
    pub open spec fn remaining(self) -> int {
        let rounds = (self.packages.len() - self.package) * self.round();
        match self.phase {
            Phase::Resolved => rounds,
            Phase::SelfWritten => rounds - 1,
            Phase::Scanning => rounds - 2 - 2 * self.member,
            Phase::Applying => rounds - 3 - 2 * self.member,
            _ => 0,
        }
    }
}

/// Taking up the next package leaves no more steps than full rounds for the
/// packages from `from` on.
proof fn lemma_advance_remaining(run: DriverView, from: int)
    requires
        0 <= from <= run.packages.len(),
    ensures
        run.advance(from).0.members == run.members,
        run.advance(from).0.packages == run.packages,
        0 <= run.advance(from).0.remaining() <= (run.packages.len() - from) * run.round(),
    decreases run.packages.len() - from,
{
    let round = run.round();
    let left = run.packages.len() - from;
    assert(0 <= left * round) by (nonlinear_arith)
        requires
            0 <= left,
            0 <= round,
    ;
    if from < run.packages.len() {
        match run.package_step(from) {
            Ok(StepView::Bump { .. }) => {},
            Err(_) => {},
            Ok(_) => {
                lemma_advance_remaining(run, from + 1);
                assert((left - 1) * round <= left * round) by (nonlinear_arith)
                    requires
                        0 <= round,
                ;
            },
        }
    }
}

/// A run at work comes to its end: with every step, whatever the event, the
/// bound on the steps still before it goes down, and it is never negative.
pub proof fn law_every_step_nears_the_end(run: DriverView, event: EventView)
    requires
        run.well_formed(),
        run.at_work(),
    ensures
        0 <= run.step(event).0.remaining() < run.remaining(),
{
    let round = run.round();
    let left = run.packages.len() - run.package;
    assert(left * round == (left - 1) * round + round && 0 <= (left - 1) * round)
        by (nonlinear_arith)
        requires
            1 <= left,
            0 <= round,
    ;
    match (run.phase, event) {
        (Phase::SelfWritten, EventView::Located { root }) => {
            let located = DriverView { root: Some(root), ..run };
            if !(0 < located.members.len()) {
                lemma_advance_remaining(
                    DriverView {
                        phase: Phase::Pending,
                        member: located.members.len() as int,
                        ..located
                    },
                    located.package + 1,
                );
            }
        },
        (Phase::Applying, EventView::Completed) => {
            if !(run.member + 1 < run.members.len()) {
                lemma_advance_remaining(
                    DriverView { phase: Phase::Pending, member: run.members.len() as int, ..run },
                    run.package + 1,
                );
            }
        },
        _ => {},
    }
}

/// Where every package in scope already is at the explicit target version,
/// the run ends as soon as the packages are collected: no manifest is
/// touched and nothing is reported.
pub proof fn law_settled_target_touches_nothing(
    run: DriverView,
    version: VersionView,
    packages: Seq<Package>,
    members: Seq<WorkspaceMember>,
)
    requires
        run.phase == Phase::Collecting,
        run.target == TargetView::Absolute(version),
        forall|i: int| 0 <= i < packages.len() ==> (#[trigger] packages[i]).version@ == version,
    ensures
        run.step(EventView::Collected { packages, members }).1 is Finish,
        run.step(EventView::Collected { packages, members }).0.phase == Phase::Done,
{
    let taken = DriverView {
        phase: Phase::Pending,
        packages,
        members,
        package: 0,
        member: 0,
        ..run
    };
    assert forall|i: int| 0 <= i < taken.packages.len() implies (#[trigger] taken.package_step(i)
        == Ok::<StepView, BumpErrorView>(StepView::Excluded) || taken.package_step(i) == Ok::<
        StepView,
        BumpErrorView,
    >(StepView::Unchanged)) by {
        assert(packages[i].version@ == version);
        crate::package::law_settled_package_is_passed_over(
            packages[i].name@,
            version,
            taken.exclude,
            taken.metadata,
            taken.dry_run,
        );
    }
    law_nothing_to_do_ends_the_run(taken, 0);
}

} // verus!
