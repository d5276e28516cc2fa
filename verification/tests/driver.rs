use set_version::args::VersionArgs;
use set_version::driver::Action;
use set_version::driver::Driver;
use set_version::driver::Event;
use set_version::driver::Phase;
use set_version::driver::RunError;
use set_version::matcher::CrateRoot;
use set_version::matcher::DependencyEntry;
use set_version::matcher::VersionField;
use set_version::package::Package;
use set_version::package::WorkspaceMember;
use set_version::requirement::UpgradeError;
use set_version::target::BumpError;
use set_version::target::BumpLevel;
use set_version::target::TargetVersion;
use set_version::version::Version;

fn root(name: &str) -> CrateRoot {
    CrateRoot { path: format!("/ws/{}", name).into_bytes() }
}

fn local(name: &str, requirement: &str) -> DependencyEntry {
    DependencyEntry {
        name: name.to_string(),
        table_like: true,
        version: VersionField::Text(requirement.to_string()),
        path: Some(format!("../{}", name)),
        location: Some(root(name)),
    }
}

fn registry(name: &str, requirement: &str) -> DependencyEntry {
    DependencyEntry {
        name: name.to_string(),
        table_like: true,
        version: VersionField::Text(requirement.to_string()),
        path: None,
        location: None,
    }
}

/// A workspace kept in memory: the version of each member and the
/// requirements it states, as (dependency, requirement, local) triples.
struct Workspace {
    members: Vec<(String, (u64, u64, u64), Vec<(String, String, bool)>)>,
    scope: Vec<String>,
}

impl Workspace {
    fn new(scope: &[&str]) -> Workspace {
        Workspace { members: Vec::new(), scope: scope.iter().map(|s| s.to_string()).collect() }
    }

    fn with(mut self, name: &str, version: (u64, u64, u64), deps: &[(&str, &str, bool)]) -> Workspace {
        let deps = deps.iter().map(|(d, r, l)| (d.to_string(), r.to_string(), *l)).collect();
        self.members.push((name.to_string(), version, deps));
        self
    }

    fn packages(&self) -> Vec<Package> {
        let mut out = Vec::new();
        for wanted in &self.scope {
            for (name, version, _) in &self.members {
                if name == wanted {
                    out.push(Package {
                        name: name.clone(),
                        version: Version::release(version.0, version.1, version.2),
                        manifest_path: format!("/ws/{}/Cargo.toml", name),
                    });
                }
            }
        }
        out
    }

    fn listing(&self) -> Vec<WorkspaceMember> {
        self.members
            .iter()
            .map(|(name, _, _)| WorkspaceMember {
                name: name.clone(),
                manifest_path: format!("/ws/{}/Cargo.toml", name),
            })
            .collect()
    }

    fn entries(&self, member: usize) -> Vec<DependencyEntry> {
        self.members[member]
            .2
            .iter()
            .map(|(d, r, l)| if *l { local(d, r) } else { registry(d, r) })
            .collect()
    }
}

/// Drives a run over the workspace and returns what was shown and what was
/// written, line by line, and the error that ended the run, if one did.
fn drive(run: Driver, workspace: &mut Workspace) -> (Vec<String>, Option<String>) {
    let mut log = Vec::new();
    let mut run = run;
    let mut event = Event::Begin;
    let mut steps = 0;
    loop {
        steps += 1;
        assert!(steps < 1000, "the run does not end");
        let (after, action) = run.step(event);
        run = after;
        event = match action {
            Action::Collect { warning, manifest_path, workspace: whole, packages } => {
                if let Some(w) = warning {
                    log.push(format!("warning: {}", w));
                }
                log.push(format!("collect {:?} {} {:?}", manifest_path, whole, packages));
                Event::Collected { packages: workspace.packages(), members: workspace.listing() }
            }
            Action::UpdatePackage { package, version, message, write } => {
                let name = run.packages()[package].name.clone();
                log.push(format!("{} {}", message.action, message.detail));
                if write {
                    log.push(format!("write {} at {}", name, version.to_text()));
                    for m in workspace.members.iter_mut() {
                        if m.0 == name {
                            m.1 = (version.major(), version.minor(), version.patch());
                        }
                    }
                }
                Event::Completed
            }
            Action::LocateRoot { package } => {
                Event::Located { root: root(&run.packages()[package].name) }
            }
            Action::ReadMember { member } => Event::Read { entries: workspace.entries(member) },
            Action::UpdateMember { member, plan } => {
                for message in &plan.messages {
                    log.push(format!("{} {}", message.action, message.detail));
                }
                if let Some(failure) = plan.failure {
                    assert!(!plan.write);
                    assert!(run.is_done());
                    return (log, Some(format!("{:?}", failure)));
                }
                if plan.write {
                    for update in &plan.updates {
                        workspace.members[member].2[update.entry].1 = update.requirement.clone();
                    }
                    log.push(format!("write {}", run.members()[member].name));
                }
                Event::Completed
            }
            Action::Finish { warning } => {
                if let Some(w) = warning {
                    log.push(format!("warning: {}", w));
                }
                assert!(run.is_done());
                return (log, None);
            }
            Action::Fail { error } => {
                assert!(run.is_done());
                return (log, Some(format!("{:?}", error)));
            }
        };
    }
}

fn args(target: Option<Version>, bump: Option<BumpLevel>) -> VersionArgs {
    VersionArgs {
        target,
        bump,
        metadata: None,
        manifest_path: None,
        pkgid: None,
        all: false,
        workspace: false,
        dry_run: false,
        exclude: Vec::new(),
    }
}

fn texts(lines: &[&str]) -> Vec<String> {
    lines.iter().map(|l| l.to_string()).collect()
}

#[test]
fn minor_bump_rewrites_a_partial_requirement() {
    let mut ws = Workspace::new(&["a"])
        .with("a", (1, 2, 3), &[])
        .with("b", (0, 1, 0), &[("a", "1.2", true)]);
    let (log, error) = drive(args(None, Some(BumpLevel::Minor)).exec(), &mut ws);
    assert_eq!(error, None);
    assert_eq!(
        log,
        texts(&[
            "collect None false []",
            "Upgrading a from 1.2.3 to 1.3.0",
            "write a at 1.3.0",
            "Updating b's dependency from 1.2 to 1.3",
            "write b",
        ])
    );
    assert_eq!(ws.members[1].2[0].1, "1.3");
}

#[test]
fn minor_bump_rewrites_an_exact_requirement() {
    let mut ws = Workspace::new(&["a"])
        .with("a", (1, 2, 3), &[])
        .with("c", (0, 1, 0), &[("a", "=1.2.3", true)]);
    let (log, error) = drive(args(None, Some(BumpLevel::Minor)).exec(), &mut ws);
    assert_eq!(error, None);
    assert_eq!(
        log,
        texts(&[
            "collect None false []",
            "Upgrading a from 1.2.3 to 1.3.0",
            "write a at 1.3.0",
            "Updating c's dependency from =1.2.3 to =1.3.0",
            "write c",
        ])
    );
    assert_eq!(ws.members[1].2[0].1, "=1.3.0");
}

#[test]
fn requirement_without_path_is_left_untouched() {
    for level in [BumpLevel::Major, BumpLevel::Minor, BumpLevel::Patch, BumpLevel::Rc] {
        let mut ws = Workspace::new(&["a"])
            .with("a", (1, 2, 3), &[])
            .with("d", (0, 1, 0), &[("a", "1.2", false)]);
        let (log, error) = drive(args(None, Some(level)).exec(), &mut ws);
        assert_eq!(error, None);
        assert_eq!(log.len(), 3);
        assert!(log[1].starts_with("Upgrading a from 1.2.3 to "));
        assert!(log[2].starts_with("write a at "));
        assert_eq!(ws.members[1].2[0].1, "1.2");
    }
}

#[test]
fn explicit_target_equal_to_current_touches_nothing() {
    let mut ws = Workspace::new(&["a"])
        .with("a", (1, 2, 3), &[])
        .with("b", (0, 1, 0), &[("a", "1.2", true)]);
    let (log, error) = drive(args(Some(Version::release(1, 2, 3)), None).exec(), &mut ws);
    assert_eq!(error, None);
    assert_eq!(log, texts(&["collect None false []"]));
    assert_eq!(ws.members[0].1, (1, 2, 3));
    assert_eq!(ws.members[1].2[0].1, "1.2");
}

#[test]
fn run_twice_with_the_same_explicit_target_changes_nothing_more() {
    let mut ws = Workspace::new(&["a"])
        .with("a", (1, 2, 3), &[])
        .with("b", (0, 1, 0), &[("a", "1.2", true), ("a", "=1.2.3", true)]);
    let (first, error) = drive(args(Some(Version::release(1, 4, 0)), None).exec(), &mut ws);
    assert_eq!(error, None);
    assert_eq!(first.len(), 6);
    let (second, error) = drive(args(Some(Version::release(1, 4, 0)), None).exec(), &mut ws);
    assert_eq!(error, None);
    assert_eq!(second, texts(&["collect None false []"]));
    assert_eq!(ws.members[1].2[0].1, "1.4");
    assert_eq!(ws.members[1].2[1].1, "=1.4.0");
}

#[test]
fn dry_run_shows_the_same_and_writes_nothing() {
    let build = || {
        Workspace::new(&["a", "b"])
            .with("a", (1, 2, 3), &[])
            .with("b", (0, 1, 0), &[("a", "1.2", true), ("x", "1", false)])
            .with("c", (0, 5, 0), &[("a", "=1.2.3", true), ("b", "0.1", true)])
    };
    let mut wet = build();
    let mut real = args(None, Some(BumpLevel::Minor));
    real.workspace = true;
    let (shown_wet, error) = drive(real.exec(), &mut wet);
    assert_eq!(error, None);

    let mut dry = build();
    let mut rehearsal = args(None, Some(BumpLevel::Minor));
    rehearsal.workspace = true;
    rehearsal.dry_run = true;
    let (shown_dry, error) = drive(rehearsal.exec(), &mut dry);
    assert_eq!(error, None);

    let status = |log: &Vec<String>| -> Vec<String> {
        log.iter().filter(|l| l.starts_with("Up")).cloned().collect()
    };
    assert_eq!(
        status(&shown_wet),
        texts(&[
            "Upgrading a from 1.2.3 to 1.3.0",
            "Updating b's dependency from 1.2 to 1.3",
            "Updating c's dependency from =1.2.3 to =1.3.0",
            "Upgrading b from 0.1.0 to 0.2.0",
            "Updating c's dependency from 0.1 to 0.2",
        ])
    );
    assert_eq!(status(&shown_dry), status(&shown_wet));
    assert!(shown_wet.iter().any(|l| l.starts_with("write ")));
    assert!(!shown_dry.iter().any(|l| l.starts_with("write ")));
    assert_eq!(shown_dry.last().unwrap(), "warning: aborting set-version due to dry run");
    assert!(!shown_wet.iter().any(|l| l.starts_with("warning")));
    assert_eq!(dry.members[0].1, (1, 2, 3));
    assert_eq!(dry.members[1].2[0].1, "1.2");
    assert_eq!(dry.members[2].2[0].1, "=1.2.3");
    assert_eq!(wet.members[2].2[0].1, "=1.3.0");
}

#[test]
fn excluded_package_is_left_alone() {
    let mut ws = Workspace::new(&["a", "b"])
        .with("a", (1, 2, 3), &[])
        .with("b", (0, 1, 0), &[("a", "1.2", true)])
        .with("c", (0, 5, 0), &[("a", "1.2", true), ("b", "0.1", true)]);
    let mut asked = args(None, Some(BumpLevel::Minor));
    asked.workspace = true;
    asked.exclude = vec!["a".to_string()];
    let (log, error) = drive(asked.exec(), &mut ws);
    assert_eq!(error, None);
    assert_eq!(
        log,
        texts(&[
            "collect None true []",
            "Upgrading b from 0.1.0 to 0.2.0",
            "write b at 0.2.0",
            "Updating c's dependency from 0.1 to 0.2",
            "write c",
        ])
    );
    assert_eq!(ws.members[0].1, (1, 2, 3));
    assert_eq!(ws.members[1].2[0].1, "1.2");
    assert_eq!(ws.members[2].2[0].1, "1.2");
}

#[test]
fn all_flag_warns_and_selects_the_workspace() {
    let mut ws = Workspace::new(&[]).with("a", (1, 2, 3), &[]);
    let mut asked = args(None, None);
    asked.all = true;
    asked.manifest_path = Some("/ws/Cargo.toml".to_string());
    asked.pkgid = Some("a".to_string());
    let (log, error) = drive(asked.exec(), &mut ws);
    assert_eq!(error, None);
    assert_eq!(
        log,
        texts(&[
            "warning: The flag `--all` has been deprecated in favor of `--workspace`",
            "collect Some(\"/ws/Cargo.toml\") true [\"a\"]",
        ])
    );
}

#[test]
fn default_target_releases_a_prerelease() {
    let run = args(None, None).exec();
    let (run, _) = run.step(Event::Begin);
    let package = Package {
        name: "a".to_string(),
        version: Version::new(1, 2, 3, "rc.1", "").unwrap(),
        manifest_path: "/ws/a/Cargo.toml".to_string(),
    };
    let (_, action) = run.step(Event::Collected { packages: vec![package], members: vec![] });
    match action {
        Action::UpdatePackage { package, version, message, write } => {
            assert_eq!(package, 0);
            assert_eq!(version.to_text(), "1.2.3");
            assert_eq!(message.detail, "a from 1.2.3-rc.1 to 1.2.3");
            assert!(write);
        }
        other => panic!("unexpected action: {:?}", other),
    }
}

#[test]
fn package_without_members_moves_on_to_the_next() {
    let run = args(None, Some(BumpLevel::Patch)).exec();
    let (run, _) = run.step(Event::Begin);
    let packages = vec![
        Package { name: "a".to_string(), version: Version::release(1, 0, 0), manifest_path: "/a/Cargo.toml".to_string() },
        Package { name: "b".to_string(), version: Version::release(2, 0, 0), manifest_path: "/b/Cargo.toml".to_string() },
    ];
    let (run, action) = run.step(Event::Collected { packages, members: vec![] });
    assert!(matches!(action, Action::UpdatePackage { package: 0, .. }));
    assert_eq!(run.phase(), Phase::Resolved);
    let (run, action) = run.step(Event::Completed);
    assert!(matches!(action, Action::LocateRoot { package: 0 }));
    assert_eq!(run.phase(), Phase::SelfWritten);
    let (run, action) = run.step(Event::Located { root: root("a") });
    match action {
        Action::UpdatePackage { package, version, .. } => {
            assert_eq!(package, 1);
            assert_eq!(version.to_text(), "2.0.1");
        }
        other => panic!("unexpected action: {:?}", other),
    }
    let (run, _) = run.step(Event::Completed);
    let (run, action) = run.step(Event::Located { root: root("b") });
    assert!(matches!(action, Action::Finish { warning: None }));
    assert_eq!(run.phase(), Phase::Done);
}

#[test]
fn phases_follow_the_work() {
    let run = args(None, Some(BumpLevel::Patch)).exec();
    assert_eq!(run.phase(), Phase::Start);
    assert!(!run.is_done());
    let (run, _) = run.step(Event::Begin);
    assert_eq!(run.phase(), Phase::Collecting);
    let packages = vec![Package {
        name: "a".to_string(),
        version: Version::release(1, 0, 0),
        manifest_path: "/ws/a/Cargo.toml".to_string(),
    }];
    let members = vec![WorkspaceMember { name: "a".to_string(), manifest_path: "/ws/a/Cargo.toml".to_string() }];
    let (run, _) = run.step(Event::Collected { packages, members });
    assert_eq!(run.phase(), Phase::Resolved);
    assert_eq!(run.packages().len(), 1);
    assert_eq!(run.members().len(), 1);
    let (run, _) = run.step(Event::Completed);
    assert_eq!(run.phase(), Phase::SelfWritten);
    let (run, _) = run.step(Event::Located { root: root("a") });
    assert_eq!(run.phase(), Phase::Scanning);
    assert_eq!(run.current_package(), 0);
    assert_eq!(run.current_member(), 0);
    let (run, _) = run.step(Event::Read { entries: vec![] });
    assert_eq!(run.phase(), Phase::Applying);
    let (run, _) = run.step(Event::Completed);
    assert_eq!(run.phase(), Phase::Done);
    assert!(run.is_done());
}

#[test]
fn resolver_error_ends_the_run() {
    let mut ws = Workspace::new(&["a", "b"])
        .with("a", (1, 2, 3), &[])
        .with("b", (3, 0, 0), &[("a", "1.2", true)]);
    let (log, error) = drive(args(Some(Version::release(2, 0, 0)), None).exec(), &mut ws);
    assert_eq!(
        log,
        texts(&[
            "collect None false []",
            "Upgrading a from 1.2.3 to 2.0.0",
            "write a at 2.0.0",
            "Updating b's dependency from 1.2 to 2.0",
            "write b",
        ])
    );
    let downgrade = BumpError::Downgrade {
        current: Version::release(3, 0, 0),
        requested: Version::release(2, 0, 0),
    };
    assert_eq!(error, Some(format!("{:?}", RunError::Bump(downgrade))));
}

#[test]
fn malformed_requirement_ends_the_run_without_writing_the_member() {
    let mut ws = Workspace::new(&["a"])
        .with("a", (1, 2, 3), &[])
        .with("b", (0, 1, 0), &[("a", "1.2", true), ("a", "1.2 1.3", true)])
        .with("c", (0, 1, 0), &[("a", "1.2", true)]);
    let (log, error) = drive(args(None, Some(BumpLevel::Minor)).exec(), &mut ws);
    assert_eq!(
        log,
        texts(&[
            "collect None false []",
            "Upgrading a from 1.2.3 to 1.3.0",
            "write a at 1.3.0",
            "Updating b's dependency from 1.2 to 1.3",
        ])
    );
    assert_eq!(
        error,
        Some(format!("{:?}", UpgradeError::Malformed { requirement: "1.2 1.3".to_string() }))
    );
    assert_eq!(ws.members[1].2[0].1, "1.2");
    assert_eq!(ws.members[2].2[0].1, "1.2");
}

#[test]
fn event_out_of_turn_ends_the_run() {
    let run = args(None, Some(BumpLevel::Minor)).exec();
    let (run, action) = run.step(Event::Completed);
    assert!(matches!(action, Action::Fail { error: RunError::OutOfTurn }));
    assert!(run.is_done());
    let (run, action) = run.step(Event::Begin);
    assert!(matches!(action, Action::Fail { error: RunError::OutOfTurn }));
    assert!(run.is_done());

    let run = args(None, Some(BumpLevel::Minor)).exec();
    let (run, _) = run.step(Event::Begin);
    let (_, action) = run.step(Event::Located { root: root("a") });
    assert!(matches!(action, Action::Fail { error: RunError::OutOfTurn }));
}

#[test]
fn driver_can_be_set_up_without_the_argument_record() {
    let run = Driver::new(
        TargetVersion::Relative(BumpLevel::Major),
        Some("meta".to_string()),
        None,
        Some("a".to_string()),
        false,
        true,
        true,
        vec!["z".to_string()],
    );
    let mut ws = Workspace::new(&["a"]).with("a", (1, 2, 3), &[]);
    let (log, error) = drive(run, &mut ws);
    assert_eq!(error, None);
    assert_eq!(
        log,
        texts(&[
            "collect None true [\"a\"]",
            "Upgrading a from 1.2.3 to 2.0.0+meta",
            "warning: aborting set-version due to dry run",
        ])
    );
}

#[test]
fn consistency_of_arguments() {
    assert!(args(None, None).is_consistent());
    assert!(args(Some(Version::release(1, 0, 0)), None).is_consistent());
    assert!(args(None, Some(BumpLevel::Rc)).is_consistent());
    assert!(!args(Some(Version::release(1, 0, 0)), Some(BumpLevel::Rc)).is_consistent());
}
