//! What a whole run achieves, proved of the machine in the modelled world.

use vstd::prelude::*;
use crate::error::{PathError, SimpleRunError};
use crate::filemap::{declares_nothing, EntryView};
use crate::model::{drive, drive_for, lemma_drive_advances, lemma_run_ends, outcome, World};
use crate::reconcile::{all_clear, EntryState, Mode, Phase, Run};

verus! {

/// The machine has a resolved install path in hand.
pub open spec fn holds_install(phase: Phase) -> bool {
    phase != Phase::ResolveInstall && phase != Phase::Done
}

/// The machine has both resolved paths in hand.
pub open spec fn holds_source(phase: Phase) -> bool {
    holds_install(phase) && phase != Phase::ResolveSource
}

/// The resolved install path of `entry`, where it has one.
pub open spec fn install_of(world: World, entry: EntryView) -> Seq<char> {
    (world.resolve)(entry.install_path)->Ok_0
}

/// The resolved source path of `entry`, where it has one.
pub open spec fn source_of(world: World, entry: EntryView) -> Seq<char> {
    (world.resolve)(entry.source_path)->Ok_0
}

/// Both paths of `entry` resolve, and they are hardlinks of one file.
pub open spec fn entry_linked(world: World, entry: EntryView) -> bool {
    &&& (world.resolve)(entry.install_path) is Ok
    &&& (world.resolve)(entry.source_path) is Ok
    &&& world.linked(install_of(world, entry), source_of(world, entry))
}

/// Every entry is linked.
pub open spec fn settled(world: World, entries: Seq<EntryView>) -> bool {
    forall|i: int| 0 <= i < entries.len() ==> entry_linked(world, #[trigger] entries[i])
}

/// All of `states` are `Linked`, one for each of `count` entries.
pub open spec fn all_linked(states: Seq<EntryState>, count: nat) -> bool {
    &&& states.len() == count
    &&& forall|i: int| 0 <= i < states.len() ==> #[trigger] states[i] == EntryState::Linked
}

/// The run goes over `entries`, the world differs from `world` at most in
/// its files and in privileges gained, and the paths that the machine holds
/// are those of the entry at hand.
pub open spec fn on_track(world: World, entries: Seq<EntryView>, run: Run, now: World) -> bool {
    &&& run.well_formed()
    &&& run.entries == entries
    &&& now.resolve == world.resolve
    &&& now.protected == world.protected
    &&& now.escalates == world.escalates
    &&& world.privileged ==> now.privileged
    &&& holds_install(run.phase) ==> (world.resolve)(entries[run.index].install_path)
        == Ok::<Seq<char>, PathError>(run.install)
    &&& holds_source(run.phase) ==> (world.resolve)(entries[run.index].source_path)
        == Ok::<Seq<char>, PathError>(run.source)
}

proof fn lemma_on_track_step(world: World, entries: Seq<EntryView>, run: Run, now: World)
    requires
        on_track(world, entries, run, now),
    ensures
        on_track(world, entries, drive(run, now).0, drive(run, now).1),
{
    lemma_drive_advances(run, now);
}

/// In a settled world the machine only looks: nothing changes, and every
/// entry so far was found linked.
spec fn quiet(world: World, entries: Seq<EntryView>, run: Run, now: World) -> bool {
    &&& on_track(world, entries, run, now)
    &&& now == world
    &&& all_linked(run.states, run.index as nat)
    &&& run.phase == Phase::ResolveInstall || run.phase == Phase::ResolveSource || run.phase
        == Phase::Probe || run.phase == Phase::Done
}

proof fn lemma_quiet_step(world: World, entries: Seq<EntryView>, run: Run, now: World)
    requires
        settled(world, entries),
        quiet(world, entries, run, now),
    ensures
        quiet(world, entries, drive(run, now).0, drive(run, now).1),
{
    lemma_on_track_step(world, entries, run, now);
    if run.phase != Phase::Done {
        assert(entry_linked(world, entries[run.index]));
    }
}

proof fn lemma_quiet_run(
    world: World,
    entries: Seq<EntryView>,
    run: Run,
    now: World,
    turns: nat,
)
    requires
        settled(world, entries),
        quiet(world, entries, run, now),
    ensures
        quiet(world, entries, drive_for(run, now, turns).0, drive_for(run, now, turns).1),
    decreases turns,
{
    if turns > 0 {
        lemma_quiet_step(world, entries, run, now);
        let (r, w) = drive(run, now);
        lemma_quiet_run(world, entries, r, w, (turns - 1) as nat);
    }
}

/// Where every entry is linked already, a run in either mode leaves the
/// world exactly as it found it, reports each entry as `Linked`, and (unless
/// the map declares nothing) ends without error.
pub proof fn law_settled_world_is_left_alone(mode: Mode, entries: Seq<EntryView>, world: World)
    requires
        settled(world, entries),
    ensures
        outcome(mode, entries, world).1 == world,
        outcome(mode, entries, world).0.phase == Phase::Done,
        !declares_nothing(entries) ==> {
            &&& all_linked(outcome(mode, entries, world).0.states, entries.len())
            &&& all_clear(outcome(mode, entries, world).0.states)
            &&& outcome(mode, entries, world).0.verdict() == Ok::<(), SimpleRunError>(())
        },
{
    let start = Run::start(mode, entries);
    lemma_quiet_run(world, entries, start, world, 7 * entries.len());
    lemma_run_ends(start, world, 7 * entries.len());
}

/// The machine is about to change, or has tried to change, the install path
/// that it holds.
pub open spec fn changing(phase: Phase) -> bool {
    phase == Phase::Remove || phase == Phase::Link || phase == Phase::Escalate || phase
        == Phase::LinkRetry
}

/// Entry `j` leaves the link of entry `i` alone: one of its paths does not
/// resolve, so that it is skipped; or it installs over neither path of entry
/// `i`; or its source is one of the paths of entry `i`, so that it finds
/// itself linked already where entry `i` is.
pub open spec fn apart(world: World, entries: Seq<EntryView>, i: int, j: int) -> bool {
    ||| (world.resolve)(entries[j].install_path) is Err
    ||| (world.resolve)(entries[j].source_path) is Err
    ||| {
        &&& install_of(world, entries[j]) != install_of(world, entries[i])
        &&& install_of(world, entries[j]) != source_of(world, entries[i])
    }
    ||| source_of(world, entries[j]) == install_of(world, entries[i])
    ||| source_of(world, entries[j]) == source_of(world, entries[i])
}

/// Every entry behind `i` leaves the link of entry `i` alone.
pub open spec fn undisturbed_later(world: World, entries: Seq<EntryView>, i: int) -> bool {
    forall|j: int| i < j < entries.len() ==> #[trigger] apart(world, entries, i, j)
}

/// Every entry leaves the links of the entries before it alone.
pub open spec fn orderly(world: World, entries: Seq<EntryView>) -> bool {
    forall|i: int| 0 <= i < entries.len() ==> #[trigger] undisturbed_later(world, entries, i)
}

/// Once entry `i` has been reported `Linked`, it is linked.
spec fn truthful(world: World, entries: Seq<EntryView>, i: int, run: Run, now: World) -> bool {
    &&& on_track(world, entries, run, now)
    &&& run.index > i && run.states[i] == EntryState::Linked ==> {
        &&& entry_linked(now, entries[i])
        &&& changing(run.phase) ==> run.install != install_of(world, entries[i]) && run.install
            != source_of(world, entries[i])
    }
}

proof fn lemma_truthful_step(
    world: World,
    entries: Seq<EntryView>,
    i: int,
    run: Run,
    now: World,
)
    requires
        0 <= i < entries.len(),
        undisturbed_later(world, entries, i),
        truthful(world, entries, i, run, now),
    ensures
        truthful(world, entries, i, drive(run, now).0, drive(run, now).1),
{
    lemma_on_track_step(world, entries, run, now);
    if run.phase != Phase::Done && run.index > i {
        assert(apart(world, entries, i, run.index));
    }
}

proof fn lemma_truthful_run(
    world: World,
    entries: Seq<EntryView>,
    i: int,
    run: Run,
    now: World,
    turns: nat,
)
    requires
        0 <= i < entries.len(),
        undisturbed_later(world, entries, i),
        truthful(world, entries, i, run, now),
    ensures
        truthful(world, entries, i, drive_for(run, now, turns).0, drive_for(run, now, turns).1),
    decreases turns,
{
    if turns > 0 {
        lemma_truthful_step(world, entries, i, run, now);
        let (r, w) = drive(run, now);
        lemma_truthful_run(world, entries, i, r, w, (turns - 1) as nat);
    }
}

/// What a run reports is true at its end: an entry that it reported `Linked`
/// is linked in the world that the run leaves, as long as every later entry
/// leaves its link alone. The run resolves paths as before.
pub proof fn law_linked_is_true(mode: Mode, entries: Seq<EntryView>, world: World, i: int)
    requires
        0 <= i < entries.len(),
        !declares_nothing(entries),
        undisturbed_later(world, entries, i),
        outcome(mode, entries, world).0.states[i] == EntryState::Linked,
    ensures
        outcome(mode, entries, world).1.resolve == world.resolve,
        entry_linked(outcome(mode, entries, world).1, entries[i]),
{
    let start = Run::start(mode, entries);
    lemma_truthful_run(world, entries, i, start, world, 7 * entries.len());
    lemma_run_ends(start, world, 7 * entries.len());
}

/// After an install that reported every entry `Linked`, the world is settled.
proof fn lemma_full_success_settles(entries: Seq<EntryView>, world: World)
    requires
        !declares_nothing(entries),
        orderly(world, entries),
        all_linked(outcome(Mode::Install, entries, world).0.states, entries.len()),
    ensures
        settled(outcome(Mode::Install, entries, world).1, entries),
{
    let after = outcome(Mode::Install, entries, world).1;
    assert forall|i: int| 0 <= i < entries.len() implies entry_linked(
        after,
        #[trigger] entries[i],
    ) by {
        assert(undisturbed_later(world, entries, i));
        law_linked_is_true(Mode::Install, entries, world, i);
    }
}

/// Installing twice: after an install that reported every entry `Linked`, a
/// second install changes nothing in the world and reports every entry as
/// `Linked` again. It is stated of maps in which every entry leaves the
/// links of the entries before it alone.
pub proof fn law_install_twice(entries: Seq<EntryView>, world: World)
    requires
        !declares_nothing(entries),
        orderly(world, entries),
        all_linked(outcome(Mode::Install, entries, world).0.states, entries.len()),
    ensures
        ({
            let first = outcome(Mode::Install, entries, world).1;
            let (again, second) = outcome(Mode::Install, entries, first);
            &&& second == first
            &&& all_linked(again.states, entries.len())
            &&& again.verdict() == Ok::<(), SimpleRunError>(())
        }),
{
    lemma_full_success_settles(entries, world);
    let first = outcome(Mode::Install, entries, world).1;
    law_settled_world_is_left_alone(Mode::Install, entries, first);
}

/// Checking after installing: after an install that reported every entry
/// `Linked`, a check finds no entry unlinked, ends without error, and
/// changes nothing. It is stated of maps in which every entry leaves the
/// links of the entries before it alone.
pub proof fn law_check_after_install(entries: Seq<EntryView>, world: World)
    requires
        !declares_nothing(entries),
        orderly(world, entries),
        all_linked(outcome(Mode::Install, entries, world).0.states, entries.len()),
    ensures
        ({
            let first = outcome(Mode::Install, entries, world).1;
            let (audit, second) = outcome(Mode::Check, entries, first);
            &&& second == first
            &&& all_clear(audit.states)
            &&& all_linked(audit.states, entries.len())
            &&& audit.verdict() == Ok::<(), SimpleRunError>(())
        }),
{
    lemma_full_success_settles(entries, world);
    let first = outcome(Mode::Install, entries, world).1;
    law_settled_world_is_left_alone(Mode::Check, entries, first);
}

/// A check never changes the world, whatever it finds.
pub proof fn law_check_changes_nothing(entries: Seq<EntryView>, world: World)
    ensures
        outcome(Mode::Check, entries, world).1 == world,
{
    lemma_looking_run(entries, Run::start(Mode::Check, entries), world, 7 * entries.len());
}

proof fn lemma_looking_run(entries: Seq<EntryView>, run: Run, world: World, turns: nat)
    requires
        run.mode == Mode::Check,
        run.well_formed(),
        run.phase == Phase::ResolveInstall || run.phase == Phase::ResolveSource || run.phase
            == Phase::Probe || run.phase == Phase::Done,
    ensures
        drive_for(run, world, turns).1 == world,
    decreases turns,
{
    if turns > 0 {
        lemma_drive_advances(run, world);
        let (r, w) = drive(run, world);
        lemma_looking_run(entries, r, w, (turns - 1) as nat);
    }
}

/// No entry before `i` that is not skipped installs over the source of
/// entry `i`, so that the source is still there when the entry is reached.
pub open spec fn source_kept(world: World, entries: Seq<EntryView>, i: int) -> bool {
    forall|j: int|
        0 <= j < i && (world.resolve)(#[trigger] entries[j].install_path) is Ok && (
        world.resolve)(entries[j].source_path) is Ok ==> install_of(world, entries[j])
            != source_of(world, entries[i])
}

/// The install path can be written: by the user as they are, or, where
/// nothing is installed yet, with privileges that will be granted.
pub open spec fn writable(world: World, install: Seq<char>) -> bool {
    ||| world.may_change(install)
    ||| world.escalates && !world.files.contains_key(install)
}

/// What entry `i` needs to end up linked: both of its paths resolve, there is
/// a file at its source, the install path can be written, no entry before it
/// installs over its source, and every entry behind it leaves its link
/// alone. What stands at the install path, and which entries before it
/// install there, makes no difference.
pub open spec fn can_converge(world: World, entries: Seq<EntryView>, i: int) -> bool {
    &&& (world.resolve)(entries[i].install_path) is Ok
    &&& (world.resolve)(entries[i].source_path) is Ok
    &&& world.files.contains_key(source_of(world, entries[i]))
    &&& writable(world, install_of(world, entries[i]))
    &&& source_kept(world, entries, i)
    &&& undisturbed_later(world, entries, i)
}

/// How far entry `i` has come on its way to being linked.
spec fn converging(world: World, entries: Seq<EntryView>, i: int, run: Run, now: World) -> bool {
    let install = install_of(world, entries[i]);
    let source = source_of(world, entries[i]);
    let looking = run.phase == Phase::ResolveInstall || run.phase == Phase::ResolveSource
        || run.phase == Phase::Probe;
    &&& on_track(world, entries, run, now)
    &&& run.mode == Mode::Install
    &&& run.index <= i ==> now.files.contains_key(source)
    &&& run.index < i && changing(run.phase) ==> run.install != source
    &&& run.index > i && changing(run.phase) ==> run.install != install && run.install != source
    &&& run.index < i || (run.index == i && looking) ==> writable(now, install)
    &&& run.index == i && !looking ==> install != source
    &&& run.index == i && run.phase == Phase::Remove ==> now.files.contains_key(install)
        && now.may_change(install)
    &&& run.index == i && holds_source(run.phase) && run.phase != Phase::Probe && run.phase
        != Phase::Remove ==> !now.files.contains_key(install)
    &&& run.index == i && run.phase == Phase::Link ==> now.may_change(install) || now.escalates
    &&& run.index == i && run.phase == Phase::Escalate ==> now.escalates
    &&& run.index == i && run.phase == Phase::LinkRetry ==> now.privileged
    &&& run.index > i ==> run.states[i] == EntryState::Linked && now.linked(install, source)
}

proof fn lemma_converging_step(
    world: World,
    entries: Seq<EntryView>,
    i: int,
    run: Run,
    now: World,
)
    requires
        0 <= i < entries.len(),
        can_converge(world, entries, i),
        converging(world, entries, i, run, now),
    ensures
        converging(world, entries, i, drive(run, now).0, drive(run, now).1),
{
    lemma_on_track_step(world, entries, run, now);
    if run.phase != Phase::Done && run.index > i {
        assert(apart(world, entries, i, run.index));
    }
}

proof fn lemma_converging_run(
    world: World,
    entries: Seq<EntryView>,
    i: int,
    run: Run,
    now: World,
    turns: nat,
)
    requires
        0 <= i < entries.len(),
        can_converge(world, entries, i),
        converging(world, entries, i, run, now),
    ensures
        converging(world, entries, i, drive_for(run, now, turns).0, drive_for(run, now, turns).1),
    decreases turns,
{
    if turns > 0 {
        lemma_converging_step(world, entries, i, run, now);
        let (r, w) = drive(run, now);
        lemma_converging_run(world, entries, i, r, w, (turns - 1) as nat);
    }
}

/// Installing converges: an entry whose source exists is reported `Linked`
/// and is linked when the install is over, whatever stood at its install
/// path and whatever became of the other entries. It is stated of an entry
/// whose paths resolve and whose install path can be written, in a map where
/// no earlier entry installs over its source and every later entry leaves
/// its link alone.
pub proof fn law_install_converges(entries: Seq<EntryView>, world: World, i: int)
    requires
        0 <= i < entries.len(),
        !declares_nothing(entries),
        can_converge(world, entries, i),
    ensures
        outcome(Mode::Install, entries, world).0.phase == Phase::Done,
        outcome(Mode::Install, entries, world).0.states[i] == EntryState::Linked,
        entry_linked(outcome(Mode::Install, entries, world).1, entries[i]),
{
    let start = Run::start(Mode::Install, entries);
    lemma_converging_run(world, entries, i, start, world, 7 * entries.len());
    lemma_run_ends(start, world, 7 * entries.len());
}

/// Privileges cannot change in the course of a run: they are held already,
/// or they will not be granted.
pub open spec fn privileges_fixed(world: World) -> bool {
    world.privileged || !world.escalates
}

/// An install has nothing left that it could do for `entry`: one of its
/// paths does not resolve; or it is linked; or its install path may not be
/// written; or there is neither a file to link nor a file in the way.
pub open spec fn at_rest(world: World, entry: EntryView) -> bool {
    ||| (world.resolve)(entry.install_path) is Err
    ||| (world.resolve)(entry.source_path) is Err
    ||| world.linked(install_of(world, entry), source_of(world, entry))
    ||| !world.may_change(install_of(world, entry))
    ||| {
        &&& !world.files.contains_key(install_of(world, entry))
        &&& !world.files.contains_key(source_of(world, entry))
    }
}

/// Every entry is at rest.
pub open spec fn all_at_rest(world: World, entries: Seq<EntryView>) -> bool {
    forall|i: int| 0 <= i < entries.len() ==> at_rest(world, #[trigger] entries[i])
}

/// Entry `j` cannot touch the paths of entry `i`: it is skipped because one
/// of its paths does not resolve, or it installs over neither of them.
pub open spec fn clear_of(world: World, entries: Seq<EntryView>, i: int, j: int) -> bool {
    ||| (world.resolve)(entries[j].install_path) is Err
    ||| (world.resolve)(entries[j].source_path) is Err
    ||| {
        &&& install_of(world, entries[j]) != install_of(world, entries[i])
        &&& install_of(world, entries[j]) != source_of(world, entries[i])
    }
}

/// No entry can touch the paths of an entry before it.
pub open spec fn separate(world: World, entries: Seq<EntryView>) -> bool {
    forall|i: int, j: int|
        0 <= i < j < entries.len() ==> #[trigger] clear_of(world, entries, i, j)
}

/// In a world at rest the machine may ask for changes, but none takes place.
spec fn idle(world: World, entries: Seq<EntryView>, run: Run, now: World) -> bool {
    &&& on_track(world, entries, run, now)
    &&& now == world
    &&& run.phase == Phase::Remove ==> now.files.contains_key(run.install) && !now.linked(
        run.install,
        run.source,
    )
}

proof fn lemma_idle_step(world: World, entries: Seq<EntryView>, run: Run, now: World)
    requires
        privileges_fixed(world),
        all_at_rest(world, entries),
        idle(world, entries, run, now),
    ensures
        idle(world, entries, drive(run, now).0, drive(run, now).1),
{
    lemma_on_track_step(world, entries, run, now);
    if run.phase != Phase::Done {
        assert(at_rest(world, entries[run.index]));
    }
}

proof fn lemma_idle_run(
    world: World,
    entries: Seq<EntryView>,
    run: Run,
    now: World,
    turns: nat,
)
    requires
        privileges_fixed(world),
        all_at_rest(world, entries),
        idle(world, entries, run, now),
    ensures
        idle(world, entries, drive_for(run, now, turns).0, drive_for(run, now, turns).1),
    decreases turns,
{
    if turns > 0 {
        lemma_idle_step(world, entries, run, now);
        let (r, w) = drive(run, now);
        lemma_idle_run(world, entries, r, w, (turns - 1) as nat);
    }
}

/// Where every entry is at rest and privileges cannot change, a run in
/// either mode leaves the world exactly as it found it.
pub proof fn law_world_at_rest_is_left_alone(mode: Mode, entries: Seq<EntryView>, world: World)
    requires
        privileges_fixed(world),
        all_at_rest(world, entries),
    ensures
        outcome(mode, entries, world).1 == world,
{
    lemma_idle_run(world, entries, Run::start(mode, entries), world, 7 * entries.len());
}

/// How far an install has come in bringing entry `i` to rest.
spec fn resting(world: World, entries: Seq<EntryView>, i: int, run: Run, now: World) -> bool {
    let install = install_of(world, entries[i]);
    let source = source_of(world, entries[i]);
    &&& on_track(world, entries, run, now)
    &&& run.mode == Mode::Install
    &&& now.privileged == world.privileged
    &&& run.index == i && run.phase == Phase::Remove ==> now.files.contains_key(install)
    &&& run.index == i && changing(run.phase) && run.phase != Phase::Remove
        ==> !now.files.contains_key(install) || !now.may_change(install)
    &&& run.index == i && run.phase == Phase::Escalate ==> !now.may_change(install)
    &&& run.index > i ==> at_rest(now, entries[i])
    &&& run.index > i && changing(run.phase) ==> run.install != install && run.install != source
}

proof fn lemma_resting_step(
    world: World,
    entries: Seq<EntryView>,
    i: int,
    run: Run,
    now: World,
)
    requires
        0 <= i < entries.len(),
        privileges_fixed(world),
        separate(world, entries),
        resting(world, entries, i, run, now),
    ensures
        resting(world, entries, i, drive(run, now).0, drive(run, now).1),
{
    lemma_on_track_step(world, entries, run, now);
    if run.phase != Phase::Done && run.index > i {
        assert(clear_of(world, entries, i, run.index));
    }
}

proof fn lemma_resting_run(
    world: World,
    entries: Seq<EntryView>,
    i: int,
    run: Run,
    now: World,
    turns: nat,
)
    requires
        0 <= i < entries.len(),
        privileges_fixed(world),
        separate(world, entries),
        resting(world, entries, i, run, now),
    ensures
        resting(world, entries, i, drive_for(run, now, turns).0, drive_for(run, now, turns).1),
    decreases turns,
{
    if turns > 0 {
        lemma_resting_step(world, entries, i, run, now);
        let (r, w) = drive(run, now);
        lemma_resting_run(world, entries, i, r, w, (turns - 1) as nat);
    }
}

/// An install brings every entry to rest, linked or not, in a map in which
/// no entry can touch the paths of an entry before it, and where privileges
/// cannot change.
pub proof fn law_install_comes_to_rest(entries: Seq<EntryView>, world: World)
    requires
        !declares_nothing(entries),
        privileges_fixed(world),
        separate(world, entries),
    ensures
        all_at_rest(outcome(Mode::Install, entries, world).1, entries),
        privileges_fixed(outcome(Mode::Install, entries, world).1),
        outcome(Mode::Install, entries, world).1.resolve == world.resolve,
{
    let start = Run::start(Mode::Install, entries);
    let after = outcome(Mode::Install, entries, world).1;
    lemma_run_ends(start, world, 7 * entries.len());
    assert forall|i: int| 0 <= i < entries.len() implies at_rest(after, #[trigger] entries[i]) by {
        lemma_resting_run(world, entries, i, start, world, 7 * entries.len());
    }
    lemma_resting_run(world, entries, 0, start, world, 7 * entries.len());
}

/// Installing twice, whatever the first install achieved: the second install
/// changes nothing in the world, so that every entry is as linked or
/// unlinked as the first left it, and it ends without error. It is stated
/// of maps in which no entry can touch the paths of an entry before it, and
/// of worlds in which privileges cannot change.
pub proof fn law_second_install_changes_nothing(entries: Seq<EntryView>, world: World)
    requires
        !declares_nothing(entries),
        privileges_fixed(world),
        separate(world, entries),
    ensures
        ({
            let first = outcome(Mode::Install, entries, world).1;
            let (again, second) = outcome(Mode::Install, entries, first);
            &&& second == first
            &&& again.phase == Phase::Done
            &&& again.verdict() == Ok::<(), SimpleRunError>(())
        }),
{
    law_install_comes_to_rest(entries, world);
    let first = outcome(Mode::Install, entries, world).1;
    law_world_at_rest_is_left_alone(Mode::Install, entries, first);
    lemma_run_ends(Run::start(Mode::Install, entries), first, 7 * entries.len());
}

} // verus!
