//! A small model of the filesystem, and what a run does to it.
//!
//! The engine only ever sees answers. To say what a whole run achieves, this
//! module supplies the other half: a world that answers each request the way
//! a filesystem with hardlinks does. Everything here is specification.

use vstd::prelude::*;
use crate::error::{LinkError, PathError};
use crate::filemap::EntryView;
use crate::link::{same_file, LinkIdentity};
use crate::reconcile::{ActionView, EventView, Mode, Phase, Run};

verus! {

/// The part of the machine's surroundings that a run depends on.
pub struct World {
    /// What each raw path normalises to. A run does not change it: it creates
    /// and removes files, never directories.
    pub resolve: spec_fn(Seq<char>) -> Result<Seq<char>, PathError>,
    /// The file found at each path that holds one.
    pub files: Map<Seq<char>, LinkIdentity>,
    /// The paths that only a privileged user may create or remove.
    pub protected: Set<Seq<char>>,
    /// Whether a request for privileges is granted.
    pub escalates: bool,
    /// Whether privileges have been granted.
    pub privileged: bool,
}

impl World {
    /// What a metadata lookup finds at `path`.
    pub open spec fn identity(self, path: Seq<char>) -> Option<LinkIdentity> {
        if self.files.contains_key(path) {
            Some(self.files[path])
        } else {
            None
        }
    }

    /// Whether `a` and `b` are hardlinks of one file.
    pub open spec fn linked(self, a: Seq<char>, b: Seq<char>) -> bool {
        same_file(self.identity(a), self.identity(b))
    }

    /// Whether the user may create or remove the file at `path`.
    pub open spec fn may_change(self, path: Seq<char>) -> bool {
        self.privileged || !self.protected.contains(path)
    }

    /// Removing a file works where there is one and the user may do it.
    pub open spec fn remove(self, path: Seq<char>) -> (World, EventView) {
        if self.files.contains_key(path) && self.may_change(path) {
            (World { files: self.files.remove(path), ..self }, EventView::Removed(true))
        } else {
            (self, EventView::Removed(false))
        }
    }

    /// Linking needs a file at `source`, nothing at `install`, and the right
    /// to create `install`; the first of these that is wanting decides the error.
    pub open spec fn link(self, source: Seq<char>, install: Seq<char>) -> (World, EventView) {
        if !self.files.contains_key(source) {
            (self, EventView::LinkAttempted(Err(LinkError::SourceMissing)))
        } else if self.files.contains_key(install) {
            (self, EventView::LinkAttempted(Err(LinkError::Other)))
        } else if !self.may_change(install) {
            (self, EventView::LinkAttempted(Err(LinkError::PermissionDenied)))
        } else {
            (
                World { files: self.files.insert(install, self.files[source]), ..self },
                EventView::LinkAttempted(Ok(())),
            )
        }
    }

    /// How the world answers a request. Nothing answers `Finish`.
    pub open spec fn answer(self, action: ActionView) -> (World, Option<EventView>) {
        match action {
            ActionView::Resolve(raw) => (self, Some(EventView::Resolved((self.resolve)(raw)))),
            ActionView::Probe { install, source } => (
                self,
                Some(
                    EventView::Probed {
                        install: self.identity(install),
                        source: self.identity(source),
                    },
                ),
            ),
            ActionView::Remove(path) => (self.remove(path).0, Some(self.remove(path).1)),
            ActionView::Link { source, install } => (
                self.link(source, install).0,
                Some(self.link(source, install).1),
            ),
            ActionView::Escalate => (
                World { privileged: self.privileged || self.escalates, ..self },
                Some(EventView::Escalated(self.escalates)),
            ),
            ActionView::Finish(_) => (self, None),
        }
    }
}

/// One turn of the driver: the pending request is answered by the world and
/// the answer handed to the machine. A finished run stays as it is.
pub open spec fn drive(run: Run, world: World) -> (Run, World) {
    let (after, event) = world.answer(run.pending());
    match event {
        Some(event) => (run.next(event), after),
        None => (run, world),
    }
}

/// `turns` turns of the driver.
pub open spec fn drive_for(run: Run, world: World, turns: nat) -> (Run, World)
    decreases turns,
{
    if turns == 0 {
        (run, world)
    } else {
        let (r, w) = drive(run, world);
        drive_for(r, w, (turns - 1) as nat)
    }
}

/// A whole run over `entries` in `world`: the state in which the machine
/// ends, and the world it leaves. No entry takes more than seven requests.
pub open spec fn outcome(mode: Mode, entries: Seq<EntryView>, world: World) -> (Run, World) {
    drive_for(Run::start(mode, entries), world, 7 * entries.len())
}

/// How many requests a run may still make, at most.
pub open spec fn turns_left(run: Run) -> nat {
    if run.phase == Phase::Done {
        0
    } else {
        (7 * (run.entries.len() - run.index) - match run.phase {
            Phase::ResolveInstall => 0int,
            Phase::ResolveSource => 1,
            Phase::Probe => 2,
            Phase::Remove => 3,
            Phase::Link => 4,
            Phase::Escalate => 5,
            _ => 6,
        }) as nat
    }
}

/// A turn keeps a run well-formed and brings it nearer to its end.
pub proof fn lemma_drive_advances(run: Run, world: World)
    requires
        run.well_formed(),
    ensures
        drive(run, world).0.well_formed(),
        drive(run, world).0.entries == run.entries,
        drive(run, world).0.mode == run.mode,
        run.phase != Phase::Done ==> turns_left(drive(run, world).0) < turns_left(run),
        run.phase == Phase::Done ==> drive(run, world) == (run, world),
{
}

/// Every run ends: with as many turns as `turns_left` says, or more, the
/// machine is done.
pub proof fn lemma_run_ends(run: Run, world: World, turns: nat)
    requires
        run.well_formed(),
        turns >= turns_left(run),
    ensures
        drive_for(run, world, turns).0.phase == Phase::Done,
        drive_for(run, world, turns).0.well_formed(),
        drive_for(run, world, turns).0.entries == run.entries,
        drive_for(run, world, turns).0.mode == run.mode,
    decreases turns,
{
    lemma_drive_advances(run, world);
    if turns > 0 {
        let (r, w) = drive(run, world);
        lemma_run_ends(r, w, (turns - 1) as nat);
    }
}

} // verus!
