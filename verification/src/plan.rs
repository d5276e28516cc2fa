use crate::matcher::CrateRoot;
use crate::matcher::DependencyEntry;
use crate::requirement::spec_upgrade;
use crate::requirement::upgrade_requirement;
use crate::requirement::upgrade_view;
use crate::requirement::UpgradeError;
use crate::requirement::UpgradeErrorView;
use crate::version::Version;
use crate::version::VersionView;
use vstd::prelude::*;
use vstd::string::StringExecFns;

verus! {

/// A line for the status channel: what is being done, and to what.
#[derive(Debug)]
pub struct StatusMessage {
    pub action: String,
    pub detail: String,
}

/// The content of a [`StatusMessage`].
pub struct MessageView {
    pub action: Seq<char>,
    pub detail: Seq<char>,
}

impl View for StatusMessage {
    type V = MessageView;

    open spec fn view(&self) -> MessageView {
        MessageView { action: self.action@, detail: self.detail@ }
    }
}

/// A new requirement for one entry of a dependent manifest.
#[derive(Debug)]
pub struct RequirementUpdate {
    /// The position of the entry among the entries that were scanned.
    pub entry: usize,
    /// The requirement to write under its `version` key.
    pub requirement: String,
}

/// The content of a [`RequirementUpdate`].
pub struct UpdateView {
    pub entry: int,
    pub requirement: Seq<char>,
}

impl View for RequirementUpdate {
    type V = UpdateView;

    open spec fn view(&self) -> UpdateView {
        UpdateView { entry: self.entry as int, requirement: self.requirement@ }
    }
}

/// The content of a list of updates.
pub open spec fn updates_view(updates: Seq<RequirementUpdate>) -> Seq<UpdateView> {
    updates.map_values(|update: RequirementUpdate| update@)
}

/// The content of a list of messages.
pub open spec fn messages_view(messages: Seq<StatusMessage>) -> Seq<MessageView> {
    messages.map_values(|message: StatusMessage| message@)
}

/// The message that reports a package's own new version.
pub open spec fn spec_upgrading_message(
    name: Seq<char>,
    current: VersionView,
    next: VersionView,
) -> MessageView {
    MessageView {
        action: "Upgrading"@,
        detail: name + " from "@ + current.text() + " to "@ + next.text(),
    }
}

/// The message that reports a dependent's new requirement.
pub open spec fn spec_updating_message(
    member: Seq<char>,
    stated: Seq<char>,
    replacement: Seq<char>,
) -> MessageView {
    MessageView {
        action: "Updating"@,
        detail: member + "'s dependency from "@ + stated + " to "@ + replacement,
    }
}

/// Builds the message that reports a package's own new version.
pub fn upgrading_message(name: &str, current: &Version, next: &Version) -> (message: StatusMessage)
    ensures
        message@ == spec_upgrading_message(name@, current@, next@),
{
    let mut detail = name.to_owned();
    detail.append(" from ");
    detail.append(current.to_text().as_str());
    detail.append(" to ");
    detail.append(next.to_text().as_str());
    StatusMessage { action: "Upgrading".to_owned(), detail }
}

/// Builds the message that reports a dependent's new requirement.
pub fn updating_message(member: &str, stated: &str, replacement: &str) -> (message:
    StatusMessage)
    ensures
        message@ == spec_updating_message(member@, stated@, replacement@),
{
    let mut detail = member.to_owned();
    detail.append("'s dependency from ");
    detail.append(stated);
    detail.append(" to ");
    detail.append(replacement);
    StatusMessage { action: "Updating".to_owned(), detail }
}

/// What scanning the entries of one dependent manifest comes to.
pub struct ScanView {
    /// The requirements to rewrite, in the order of their entries.
    pub updates: Seq<UpdateView>,
    /// One message for each update, in the same order.
    pub messages: Seq<MessageView>,
    /// The error that stopped the scan, if one did.
    pub failure: Option<UpgradeErrorView>,
}

/// The scan that has seen nothing yet.
pub open spec fn empty_scan() -> ScanView {
    ScanView {
        updates: Seq::<UpdateView>::empty(),
        messages: Seq::<MessageView>::empty(),
        failure: None,
    }
}

/// A scan after the entry at position `entry`, with requirement `stated`,
/// was found to point at the bumped package and its upgrade came to
/// `outcome`.
pub open spec fn spec_record(
    scan: ScanView,
    member: Seq<char>,
    entry: int,
    stated: Seq<char>,
    outcome: Result<Option<Seq<char>>, UpgradeErrorView>,
) -> ScanView {
    match outcome {
        Ok(None) => scan,
        Ok(Some(replacement)) => ScanView {
            updates: scan.updates.push(UpdateView { entry, requirement: replacement }),
            messages: scan.messages.push(spec_updating_message(member, stated, replacement)),
            failure: scan.failure,
        },
        Err(error) => ScanView { failure: Some(error), ..scan },
    }
}

/// The scan of `entries`, the dependency entries of the manifest of
/// `member`, after the package in `root` has become `next`.
///
/// Entries are taken in order. One that does not point at `root` is passed
/// over. For one that does, its requirement is upgraded: no change leaves
/// the scan as it is, a new requirement adds an update and a message, and an
/// error stops the scan, so that no later entry is looked at.
pub open spec fn spec_scan(
    member: Seq<char>,
    entries: Seq<DependencyEntry>,
    root: Seq<u8>,
    next: VersionView,
) -> ScanView
    decreases entries.len(),
{
    if entries.len() == 0 {
        empty_scan()
    } else {
        let before = spec_scan(member, entries.drop_last(), root, next);
        let entry = entries.last();
        if before.failure is Some || !entry.spec_points_at(root) {
            before
        } else {
            spec_record(
                before,
                member,
                entries.len() - 1,
                entry.spec_requirement(),
                spec_upgrade(entry.spec_requirement(), next),
            )
        }
    }
}

/// What is to be done to one dependent manifest.
#[derive(Debug)]
pub struct DependentPlan {
    /// The requirements to rewrite, in the order of their entries.
    pub updates: Vec<RequirementUpdate>,
    /// One message for each update, in the same order.
    pub messages: Vec<StatusMessage>,
    /// The error that stopped the scan, if one did. The messages before it
    /// are still to be shown; nothing is to be written.
    pub failure: Option<UpgradeError>,
    /// Whether the manifest is to be written back.
    pub write: bool,
}

/// The content of a [`DependentPlan`].
pub struct PlanView {
    pub scan: ScanView,
    pub write: bool,
}

impl DependentPlan {
    /// What the plan has gathered so far.
    pub open spec fn scan(self) -> ScanView {
        ScanView {
            updates: updates_view(self.updates@),
            messages: messages_view(self.messages@),
            failure: match self.failure {
                Some(error) => Some(error@),
                None => None,
            },
        }
    }
}

impl View for DependentPlan {
    type V = PlanView;

    open spec fn view(&self) -> PlanView {
        PlanView { scan: self.scan(), write: self.write }
    }
}

/// Whether a manifest with this scan is written back: something changed,
/// nothing failed, and the run is not a dry one.
pub open spec fn spec_write(scan: ScanView, dry_run: bool) -> bool {
    scan.updates.len() > 0 && scan.failure is None && !dry_run
}

/// The plan for the manifest of `member` after the package in `root` has
/// become `next`.
pub open spec fn spec_plan(
    member: Seq<char>,
    entries: Seq<DependencyEntry>,
    root: Seq<u8>,
    next: VersionView,
    dry_run: bool,
) -> PlanView {
    let scan = spec_scan(member, entries, root, next);
    PlanView { scan, write: spec_write(scan, dry_run) }
}

impl DependentPlan {
    /// The plan that changes nothing.
    pub fn new() -> (plan: DependentPlan)
        ensures
            plan.scan() == empty_scan(),
            !plan.write,
    {
        let plan = DependentPlan {
            updates: Vec::new(),
            messages: Vec::new(),
            failure: None,
            write: false,
        };
        assert(plan.scan().updates =~= empty_scan().updates);
        assert(plan.scan().messages =~= empty_scan().messages);
        plan
    }

    /// Takes note of what upgrading the requirement `stated` by the entry at
    /// position `entry` came to: a new requirement adds an update and its
    /// message, an error is kept as the failure, no change leaves the plan as
    /// it is.
    pub fn record(
        &mut self,
        member: &str,
        entry: usize,
        stated: &str,
        outcome: Result<Option<String>, UpgradeError>,
    )
        ensures
            final(self).scan() == spec_record(
                old(self).scan(),
                member@,
                entry as int,
                stated@,
                upgrade_view(outcome),
            ),
            final(self).write == old(self).write,
    {
        match outcome {
            Ok(None) => {},
            Ok(Some(replacement)) => {
                let message = updating_message(member, stated, replacement.as_str());
                self.messages.push(message);
                self.updates.push(RequirementUpdate { entry, requirement: replacement });
                proof {
                    let wanted = spec_record(
                        old(self).scan(),
                        member@,
                        entry as int,
                        stated@,
                        upgrade_view(outcome),
                    );
                    assert(self.scan().updates =~= wanted.updates);
                    assert(self.scan().messages =~= wanted.messages);
                }
            },
            Err(error) => {
                self.failure = Some(error);
            },
        }
    }
}

/// Whether every update of `scan` belongs to one of the first `limit`
/// entries and replaces the requirement of its entry by a different one.
pub open spec fn updates_change_text(
    scan: ScanView,
    entries: Seq<DependencyEntry>,
    limit: int,
) -> bool {
    forall|k: int|
        0 <= k < scan.updates.len() ==> 0 <= (#[trigger] scan.updates[k]).entry < limit
            && scan.updates[k].requirement != entries[scan.updates[k].entry].spec_requirement()
}

/// Plans the changes to the manifest of `member`, whose dependency entries
/// are `entries`, after the package in `root` has become `next`. No update
/// of the plan writes the requirement that its entry already states.
pub fn plan_dependent(
    member: &str,
    entries: &Vec<DependencyEntry>,
    root: &CrateRoot,
    next: &Version,
    dry_run: bool,
) -> (plan: DependentPlan)
    ensures
        plan@ == spec_plan(member@, entries@, root@, next@, dry_run),
        updates_change_text(plan@.scan, entries@, entries@.len() as int),
{
    let mut plan = DependentPlan::new();
    let mut i: usize = 0;
    while i < entries.len()
        invariant
            i <= entries.len(),
            plan.scan() == spec_scan(member@, entries@.take(i as int), root@, next@),
            updates_change_text(plan.scan(), entries@, i as int),
        decreases entries.len() - i,
    {
        proof {
            assert(entries@.take(i + 1).drop_last() =~= entries@.take(i as int));
        }
        if plan.failure.is_none() && entries[i].points_at(root) {
            let stated = entries[i].requirement();
            let outcome = upgrade_requirement(stated, next);
            let ghost before = plan.scan();
            plan.record(member, i, stated, outcome);
            proof {
                let after = plan.scan();
                assert forall|k: int| 0 <= k < after.updates.len() implies 0 <= (
                #[trigger] after.updates[k]).entry < i + 1 && after.updates[k].requirement
                    != entries@[after.updates[k].entry].spec_requirement() by {
                    if k < before.updates.len() {
                        assert(after.updates[k] == before.updates[k]);
                    }
                }
            }
        }
        i = i + 1;
    }
    proof {
        assert(entries@.take(entries.len() as int) =~= entries@);
    }
    plan.write = plan.updates.len() > 0 && plan.failure.is_none() && !dry_run;
    plan
}

/// Whether the update at position `k` of `scan` is the upgrade of an entry
/// of `entries` that points at `root`, reported by its own message.
pub open spec fn update_is_justified(
    scan: ScanView,
    k: int,
    member: Seq<char>,
    entries: Seq<DependencyEntry>,
    root: Seq<u8>,
    next: VersionView,
) -> bool {
    let update = scan.updates[k];
    &&& 0 <= update.entry < entries.len()
    &&& entries[update.entry].spec_points_at(root)
    &&& spec_upgrade(entries[update.entry].spec_requirement(), next) == Ok::<
        Option<Seq<char>>,
        UpgradeErrorView,
    >(Some(update.requirement))
    &&& scan.messages[k] == spec_updating_message(
        member,
        entries[update.entry].spec_requirement(),
        update.requirement,
    )
}

/// Every update of a scan rewrites an entry whose path leads to the bumped
/// package, to what the upgrade of its requirement gave, and has its own
/// message; the updates come in the order of their entries.
pub proof fn law_updates_are_justified(
    member: Seq<char>,
    entries: Seq<DependencyEntry>,
    root: Seq<u8>,
    next: VersionView,
)
    ensures
        spec_scan(member, entries, root, next).messages.len() == spec_scan(
            member,
            entries,
            root,
            next,
        ).updates.len(),
        forall|k: int|
            0 <= k < spec_scan(member, entries, root, next).updates.len()
                ==> #[trigger] update_is_justified(
                spec_scan(member, entries, root, next),
                k,
                member,
                entries,
                root,
                next,
            ),
        forall|j: int, k: int|
            0 <= j < k < spec_scan(member, entries, root, next).updates.len() ==> spec_scan(
                member,
                entries,
                root,
                next,
            ).updates[j].entry < spec_scan(member, entries, root, next).updates[k].entry,
    decreases entries.len(),
{
    if entries.len() > 0 {
        let head = entries.drop_last();
        law_updates_are_justified(member, head, root, next);
        let before = spec_scan(member, head, root, next);
        let all = spec_scan(member, entries, root, next);
        assert forall|k: int| 0 <= k < all.updates.len() implies #[trigger] update_is_justified(
            all,
            k,
            member,
            entries,
            root,
            next,
        ) by {
            if k < before.updates.len() {
                assert(update_is_justified(before, k, member, head, root, next));
                assert(all.updates[k] == before.updates[k]);
                assert(all.messages[k] == before.messages[k]);
                assert(head[before.updates[k].entry] == entries[before.updates[k].entry]);
            }
        }
        assert forall|j: int, k: int| 0 <= j < k < all.updates.len() implies all.updates[j].entry
            < all.updates[k].entry by {
            assert(update_is_justified(before, j, member, head, root, next));
            if k < before.updates.len() {
                assert(all.updates[k] == before.updates[k]);
            }
        }
    }
}

/// Where a scan ran to its end, no entry that points at the bumped package
/// and whose requirement has to change is missing from the updates.
pub proof fn law_no_update_is_missing(
    member: Seq<char>,
    entries: Seq<DependencyEntry>,
    root: Seq<u8>,
    next: VersionView,
    i: int,
)
    requires
        0 <= i < entries.len(),
        spec_scan(member, entries, root, next).failure is None,
        entries[i].spec_points_at(root),
        spec_upgrade(entries[i].spec_requirement(), next) matches Ok(Some(_)),
    ensures
        exists|k: int|
            0 <= k < spec_scan(member, entries, root, next).updates.len() && (#[trigger] spec_scan(
                member,
                entries,
                root,
                next,
            ).updates[k]).entry == i,
    decreases entries.len(),
{
    let head = entries.drop_last();
    let before = spec_scan(member, head, root, next);
    let all = spec_scan(member, entries, root, next);
    if i < entries.len() - 1 {
        assert(head[i] == entries[i]);
        law_no_update_is_missing(member, head, root, next, i);
        let k = choose|k: int|
            0 <= k < before.updates.len() && (#[trigger] before.updates[k]).entry == i;
        assert(all.updates[k].entry == i);
    } else {
        assert(all.updates[all.updates.len() - 1].entry == i);
    }
}

/// A manifest none of whose entries has a path that leads to the bumped
/// package is left as it is: no update, no message, no failure, no writing.
pub proof fn law_other_entries_are_untouched(
    member: Seq<char>,
    entries: Seq<DependencyEntry>,
    root: Seq<u8>,
    next: VersionView,
    dry_run: bool,
)
    requires
        forall|i: int| 0 <= i < entries.len() ==> !(#[trigger] entries[i]).spec_points_at(root),
    ensures
        spec_scan(member, entries, root, next) == empty_scan(),
        !spec_plan(member, entries, root, next, dry_run).write,
    decreases entries.len(),
{
    if entries.len() > 0 {
        let head = entries.drop_last();
        assert forall|i: int| 0 <= i < head.len() implies !(#[trigger] head[i]).spec_points_at(
            root,
        ) by {
            assert(head[i] == entries[i]);
        }
        law_other_entries_are_untouched(member, head, root, next, dry_run);
        assert(!entries[entries.len() - 1].spec_points_at(root));
    }
}

/// A dry run plans the same updates and the same messages as a real run, and
/// writes nothing.
pub proof fn law_dry_plan_differs_in_writing_alone(
    member: Seq<char>,
    entries: Seq<DependencyEntry>,
    root: Seq<u8>,
    next: VersionView,
)
    ensures
        spec_plan(member, entries, root, next, true).scan == spec_plan(
            member,
            entries,
            root,
            next,
            false,
        ).scan,
        !spec_plan(member, entries, root, next, true).write,
{
}

} // verus!
