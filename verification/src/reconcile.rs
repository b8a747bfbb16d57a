//! The reconciliation engine: what `install` and `check` do, entry by entry.
//!
//! The engine never touches the filesystem. It is a machine that says what it
//! needs next (`pending`) and takes the answer (`step`); whoever drives it
//! performs the request and hands back what happened.

use vstd::prelude::*;
use crate::error::{LinkError, PathError, SimpleRunError};
use crate::filemap::{declares_nothing, EntryView, Filemap};
use crate::link::{same_file, LinkIdentity};

verus! {

/// What a run is for.
#[derive(Debug, Clone, Copy, PartialEq, Eq, Structural)]
pub enum Mode {
    /// Bring every entry to the linked state.
    Install,
    /// Only look, and report.
    Check,
}

/// Why an entry was left as it was.
#[derive(Debug, Clone, Copy, PartialEq, Eq, Structural)]
pub enum SkipReason {
    /// One of its two paths could not be resolved.
    Unresolved(PathError),
    SourceMissing,
    PermissionDenied,
    Other,
}

/// Where an entry stands once it has been dealt with.
#[derive(Debug, Clone, Copy, PartialEq, Eq, Structural)]
pub enum EntryState {
    Unlinked,
    Linked,
    Skipped(SkipReason),
}

/// What the machine is waiting for.
#[derive(Debug, Clone, Copy, PartialEq, Eq, Structural)]
pub enum Phase {
    ResolveInstall,
    ResolveSource,
    Probe,
    Remove,
    Link,
    Escalate,
    LinkRetry,
    Done,
}

/// A request of the machine to its driver.
#[derive(Debug, PartialEq, Eq)]
pub enum Action {
    /// Normalise this raw path.
    Resolve(String),
    /// Look up the identity of the files at these two resolved paths.
    Probe { install: String, source: String },
    /// Remove the file at this path.
    Remove(String),
    /// Create a hardlink at `install` to the file at `source`.
    Link { source: String, install: String },
    /// Ask for the privileges that the last attempt lacked.
    Escalate,
    /// The run is over, with this result.
    Finish(Result<(), SimpleRunError>),
}

/// An `Action` as plain text.
pub enum ActionView {
    Resolve(Seq<char>),
    Probe { install: Seq<char>, source: Seq<char> },
    Remove(Seq<char>),
    Link { source: Seq<char>, install: Seq<char> },
    Escalate,
    Finish(Result<(), SimpleRunError>),
}

impl View for Action {
    type V = ActionView;

    open spec fn view(&self) -> ActionView {
        match self {
            Action::Resolve(raw) => ActionView::Resolve(raw@),
            Action::Probe { install, source } => ActionView::Probe {
                install: install@,
                source: source@,
            },
            Action::Remove(path) => ActionView::Remove(path@),
            Action::Link { source, install } => ActionView::Link {
                source: source@,
                install: install@,
            },
            Action::Escalate => ActionView::Escalate,
            Action::Finish(result) => ActionView::Finish(*result),
        }
    }
}

/// What the driver found when it carried out a request.
#[derive(Debug, PartialEq, Eq)]
pub enum Event {
    /// The canonical path, or why there is none.
    Resolved(Result<String, PathError>),
    /// The identity of the file at each path; `None` where the lookup failed,
    /// which for the install path means that nothing is installed there.
    Probed { install: Option<LinkIdentity>, source: Option<LinkIdentity> },
    /// Whether the file was removed.
    Removed(bool),
    /// How the attempt to link ended.
    LinkAttempted(Result<(), LinkError>),
    /// Whether the privileges were granted.
    Escalated(bool),
}

/// An `Event` as plain text.
pub enum EventView {
    Resolved(Result<Seq<char>, PathError>),
    Probed { install: Option<LinkIdentity>, source: Option<LinkIdentity> },
    Removed(bool),
    LinkAttempted(Result<(), LinkError>),
    Escalated(bool),
}

impl View for Event {
    type V = EventView;

    open spec fn view(&self) -> EventView {
        match self {
            Event::Resolved(Ok(path)) => EventView::Resolved(Ok(path@)),
            Event::Resolved(Err(error)) => EventView::Resolved(Err(*error)),
            Event::Probed { install, source } => EventView::Probed {
                install: *install,
                source: *source,
            },
            Event::Removed(done) => EventView::Removed(*done),
            Event::LinkAttempted(result) => EventView::LinkAttempted(*result),
            Event::Escalated(granted) => EventView::Escalated(*granted),
        }
    }
}

/// The state of a run as plain values.
pub struct Run {
    pub mode: Mode,
    pub entries: Seq<EntryView>,
    /// The position of the entry that is being dealt with.
    pub index: int,
    pub phase: Phase,
    /// The resolved install path of that entry, once it is known.
    pub install: Seq<char>,
    /// The resolved source path of that entry, once it is known.
    pub source: Seq<char>,
    /// The states of the entries before `index`.
    pub states: Seq<EntryState>,
}

/// Every entry that was looked at is linked: none was found unlinked.
pub open spec fn all_clear(states: Seq<EntryState>) -> bool {
    forall|i: int| 0 <= i < states.len() ==> #[trigger] states[i] != EntryState::Unlinked
}

impl Run {
    /// The state in which a run over `entries` starts.
    pub open spec fn start(mode: Mode, entries: Seq<EntryView>) -> Run {
        Run {
            mode,
            entries,
            index: 0,
            phase: if declares_nothing(entries) {
                Phase::Done
            } else {
                Phase::ResolveInstall
            },
            install: Seq::empty(),
            source: Seq::empty(),
            states: Seq::empty(),
        }
    }

    pub open spec fn well_formed(self) -> bool {
        &&& 0 <= self.index <= self.entries.len()
        &&& self.states.len() == self.index
        &&& declares_nothing(self.entries) ==> self.phase == Phase::Done && self.index == 0
        &&& !declares_nothing(self.entries) ==> (self.phase == Phase::Done <==> self.index
            == self.entries.len())
    }

    /// How the run ends: a map that declares nothing is an error in either
    /// mode; a check fails when it found an entry unlinked.
    pub open spec fn verdict(self) -> Result<(), SimpleRunError> {
        if declares_nothing(self.entries) {
            Err(SimpleRunError::NoFilesSpecified)
        } else if self.mode == Mode::Check && !all_clear(self.states) {
            Err(SimpleRunError::UnlinkedFilesFound)
        } else {
            Ok(())
        }
    }

    /// What the machine asks for in this state.
    pub open spec fn pending(self) -> ActionView {
        match self.phase {
            Phase::ResolveInstall => ActionView::Resolve(self.entries[self.index].install_path),
            Phase::ResolveSource => ActionView::Resolve(self.entries[self.index].source_path),
            Phase::Probe => ActionView::Probe { install: self.install, source: self.source },
            Phase::Remove => ActionView::Remove(self.install),
            Phase::Link | Phase::LinkRetry => ActionView::Link {
                source: self.source,
                install: self.install,
            },
            Phase::Escalate => ActionView::Escalate,
            Phase::Done => ActionView::Finish(self.verdict()),
        }
    }

    /// The entry at `index` is settled with `state`; the run goes on with the
    /// next entry, or is done.
    pub open spec fn conclude(self, state: EntryState) -> Run {
        Run {
            index: self.index + 1,
            phase: if self.index + 1 == self.entries.len() {
                Phase::Done
            } else {
                Phase::ResolveInstall
            },
            states: self.states.push(state),
            ..self
        }
    }

    pub open spec fn enter(self, phase: Phase) -> Run {
        Run { phase, ..self }
    }

    /// What a probe means for the entry at hand.
    pub open spec fn after_probe(
        self,
        install: Option<LinkIdentity>,
        source: Option<LinkIdentity>,
    ) -> Run {
        if self.mode == Mode::Check {
            if same_file(install, source) {
                self.conclude(EntryState::Linked)
            } else {
                self.conclude(EntryState::Unlinked)
            }
        } else if install is None {
            self.enter(Phase::Link)
        } else if same_file(install, source) {
            self.conclude(EntryState::Linked)
        } else {
            self.enter(Phase::Remove)
        }
    }

    /// What the result of a link attempt means for the entry at hand. Only
    /// the first attempt may lead to a request for privileges.
    pub open spec fn after_link(self, result: Result<(), LinkError>) -> Run {
        match result {
            Ok(()) => self.conclude(EntryState::Linked),
            Err(LinkError::SourceMissing) => self.conclude(
                EntryState::Skipped(SkipReason::SourceMissing),
            ),
            Err(LinkError::PermissionDenied) => if self.phase == Phase::Link {
                self.enter(Phase::Escalate)
            } else {
                self.conclude(EntryState::Skipped(SkipReason::PermissionDenied))
            },
            Err(LinkError::Other) => self.conclude(EntryState::Skipped(SkipReason::Other)),
        }
    }

    /// The state after `event`. An event that does not answer the pending
    /// request changes nothing.
    pub open spec fn next(self, event: EventView) -> Run {
        match (self.phase, event) {
            (Phase::ResolveInstall, EventView::Resolved(Ok(path))) => Run {
                install: path,
                phase: Phase::ResolveSource,
                ..self
            },
            (Phase::ResolveSource, EventView::Resolved(Ok(path))) => Run {
                source: path,
                phase: Phase::Probe,
                ..self
            },
            (Phase::ResolveInstall, EventView::Resolved(Err(error))) => self.conclude(
                EntryState::Skipped(SkipReason::Unresolved(error)),
            ),
            (Phase::ResolveSource, EventView::Resolved(Err(error))) => self.conclude(
                EntryState::Skipped(SkipReason::Unresolved(error)),
            ),
            (Phase::Probe, EventView::Probed { install, source }) => self.after_probe(
                install,
                source,
            ),
            (Phase::Remove, EventView::Removed(_)) => self.enter(Phase::Link),
            (Phase::Link, EventView::LinkAttempted(result)) => self.after_link(result),
            (Phase::LinkRetry, EventView::LinkAttempted(result)) => self.after_link(result),
            (Phase::Escalate, EventView::Escalated(granted)) => if granted {
                self.enter(Phase::LinkRetry)
            } else {
                self.conclude(EntryState::Skipped(SkipReason::PermissionDenied))
            },
            _ => self,
        }
    }
}

/// Whether none of the states is `Unlinked`.
pub fn none_unlinked(states: &Vec<EntryState>) -> (clear: bool)
    ensures
        clear == all_clear(states@),
{
    let mut i: usize = 0;
    while i < states.len()
        invariant
            i <= states@.len(),
            forall|k: int| 0 <= k < i ==> #[trigger] states@[k] != EntryState::Unlinked,
        decreases states@.len() - i,
    {
        match states[i] {
            EntryState::Unlinked => {
                return false;
            },
            _ => {},
        }
        i = i + 1;
    }
    true
}

/// A run of `install` or `check` over a file map.
#[derive(Debug)]
pub struct Reconciler {
    pub mode: Mode,
    pub map: Filemap,
    pub index: usize,
    pub phase: Phase,
    pub install: String,
    pub source: String,
    pub states: Vec<EntryState>,
}

impl View for Reconciler {
    type V = Run;

    open spec fn view(&self) -> Run {
        Run {
            mode: self.mode,
            entries: self.map@,
            index: self.index as int,
            phase: self.phase,
            install: self.install@,
            source: self.source@,
            states: self.states@,
        }
    }
}

impl Reconciler {
    pub open spec fn well_formed(&self) -> bool {
        &&& self.map.well_formed()
        &&& self@.well_formed()
    }

    /// A run over `map` that has asked for nothing yet.
    pub fn begin(mode: Mode, map: Filemap) -> (run: Reconciler)
        requires
            map.well_formed(),
        ensures
            run.well_formed(),
            run@ == Run::start(mode, map@),
    {
        let phase = if map.check_empty() {
            Phase::Done
        } else {
            Phase::ResolveInstall
        };
        Reconciler {
            mode,
            map,
            index: 0,
            phase,
            install: String::new(),
            source: String::new(),
            states: Vec::new(),
        }
    }

    /// Whether the run is over.
    pub fn finished(&self) -> (done: bool)
        ensures
            done == (self@.phase == Phase::Done),
    {
        self.phase == Phase::Done
    }

    /// How the run ends, as far as it has come.
    pub fn verdict(&self) -> (result: Result<(), SimpleRunError>)
        requires
            self.well_formed(),
        ensures
            result == self@.verdict(),
    {
        if self.map.check_empty() {
            Err(SimpleRunError::NoFilesSpecified)
        } else if self.mode == Mode::Check && !none_unlinked(&self.states) {
            Err(SimpleRunError::UnlinkedFilesFound)
        } else {
            Ok(())
        }
    }

    /// What the driver has to do next.
    pub fn pending(&self) -> (action: Action)
        requires
            self.well_formed(),
        ensures
            action@ == self@.pending(),
    {
        match self.phase {
            Phase::ResolveInstall => Action::Resolve(self.map.install_paths[self.index].clone()),
            Phase::ResolveSource => Action::Resolve(self.map.source_paths[self.index].clone()),
            Phase::Probe => Action::Probe {
                install: self.install.clone(),
                source: self.source.clone(),
            },
            Phase::Remove => Action::Remove(self.install.clone()),
            Phase::Link | Phase::LinkRetry => Action::Link {
                source: self.source.clone(),
                install: self.install.clone(),
            },
            Phase::Escalate => Action::Escalate,
            Phase::Done => Action::Finish(self.verdict()),
        }
    }

    fn conclude(&mut self, state: EntryState)
        requires
            old(self).well_formed(),
            old(self).phase != Phase::Done,
        ensures
            final(self).well_formed(),
            final(self)@ == old(self)@.conclude(state),
    {
        let count = self.map.len();
        assert(self.index < count);
        self.states.push(state);
        self.index = self.index + 1;
        self.phase = if self.index == count {
            Phase::Done
        } else {
            Phase::ResolveInstall
        };
    }

    fn after_probe(&mut self, install: Option<LinkIdentity>, source: Option<LinkIdentity>)
        requires
            old(self).well_formed(),
            old(self).phase == Phase::Probe,
        ensures
            final(self).well_formed(),
            final(self)@ == old(self)@.after_probe(install, source),
    {
        let linked = Filemap::is_hard_linked(install, source);
        if self.mode == Mode::Check {
            if linked {
                self.conclude(EntryState::Linked);
            } else {
                self.conclude(EntryState::Unlinked);
            }
        } else if install.is_none() {
            self.phase = Phase::Link;
        } else if linked {
            self.conclude(EntryState::Linked);
        } else {
            self.phase = Phase::Remove;
        }
    }

    fn after_link(&mut self, result: Result<(), LinkError>)
        requires
            old(self).well_formed(),
            old(self).phase == Phase::Link || old(self).phase == Phase::LinkRetry,
        ensures
            final(self).well_formed(),
            final(self)@ == old(self)@.after_link(result),
    {
        match result {
            Ok(()) => self.conclude(EntryState::Linked),
            Err(LinkError::SourceMissing) => self.conclude(
                EntryState::Skipped(SkipReason::SourceMissing),
            ),
            Err(LinkError::PermissionDenied) => {
                if self.phase == Phase::Link {
                    self.phase = Phase::Escalate;
                } else {
                    self.conclude(EntryState::Skipped(SkipReason::PermissionDenied));
                }
            },
            Err(LinkError::Other) => self.conclude(EntryState::Skipped(SkipReason::Other)),
        }
    }

    /// Takes what the driver found. An event that does not answer the
    /// pending request is ignored, so that the request stands as before.
    pub fn step(&mut self, event: Event)
        requires
            old(self).well_formed(),
        ensures
            final(self).well_formed(),
            final(self)@ == old(self)@.next(event@),
    {
        match event {
            Event::Resolved(result) => {
                if self.phase == Phase::ResolveInstall {
                    match result {
                        Ok(path) => {
                            self.install = path;
                            self.phase = Phase::ResolveSource;
                        },
                        Err(error) => self.conclude(
                            EntryState::Skipped(SkipReason::Unresolved(error)),
                        ),
                    }
                } else if self.phase == Phase::ResolveSource {
                    match result {
                        Ok(path) => {
                            self.source = path;
                            self.phase = Phase::Probe;
                        },
                        Err(error) => self.conclude(
                            EntryState::Skipped(SkipReason::Unresolved(error)),
                        ),
                    }
                }
            },
            Event::Probed { install, source } => {
                if self.phase == Phase::Probe {
                    self.after_probe(install, source);
                }
            },
            Event::Removed(_) => {
                if self.phase == Phase::Remove {
                    self.phase = Phase::Link;
                }
            },
            Event::LinkAttempted(result) => {
                if self.phase == Phase::Link || self.phase == Phase::LinkRetry {
                    self.after_link(result);
                }
            },
            Event::Escalated(granted) => {
                if self.phase == Phase::Escalate {
                    if granted {
                        self.phase = Phase::LinkRetry;
                    } else {
                        self.conclude(EntryState::Skipped(SkipReason::PermissionDenied));
                    }
                }
            },
        }
    }
}

/// Starts a run that links every entry of `filemap` to its install path.
pub fn install(filemap: Filemap) -> (run: Reconciler)
    requires
        filemap.well_formed(),
    ensures
        run.well_formed(),
        run@ == Run::start(Mode::Install, filemap@),
{
    Reconciler::begin(Mode::Install, filemap)
}

/// Starts a run that only reports which entries of `filemap` are linked.
pub fn check(filemap: Filemap) -> (run: Reconciler)
    requires
        filemap.well_formed(),
    ensures
        run.well_formed(),
        run@ == Run::start(Mode::Check, filemap@),
{
    Reconciler::begin(Mode::Check, filemap)
}

} // verus!
