use std::collections::{HashMap, HashSet};

use rusty_dotfiler::error::{LinkError, PathError, SimpleRunError};
use rusty_dotfiler::filemap::Filemap;
use rusty_dotfiler::link::LinkIdentity;
use rusty_dotfiler::path::{expand_home, finish_path};
use rusty_dotfiler::reconcile::{
    check, install, Action, EntryState, Event, Mode, Phase, Reconciler, SkipReason,
};

/// A filesystem in memory that answers the machine's requests.
struct Disk {
    home: Option<String>,
    /// The canonical form of each directory that exists.
    dirs: HashMap<String, String>,
    files: HashMap<String, LinkIdentity>,
    protected: HashSet<String>,
    escalates: bool,
    privileged: bool,
    /// Every request that changed, or tried to change, the disk.
    mutations: Vec<String>,
}

impl Disk {
    fn new() -> Disk {
        let mut dirs = HashMap::new();
        dirs.insert(String::from("./dotfiles"), String::from("/repo/dotfiles"));
        dirs.insert(String::from("/etc"), String::from("/etc"));
        Disk {
            home: Some(String::from("/home/alice")),
            dirs,
            files: HashMap::new(),
            protected: HashSet::new(),
            escalates: false,
            privileged: false,
            mutations: Vec::new(),
        }
    }

    fn with_file(mut self, path: &str, inode: u64) -> Disk {
        self.files.insert(String::from(path), LinkIdentity { device_id: 7, inode_number: inode });
        self
    }

    fn resolve(&self, raw: &str) -> Result<String, PathError> {
        if raw.starts_with('~') {
            return expand_home(raw, self.home.as_deref());
        }
        let (parent, name) = match raw.rfind('/') {
            Some(at) => (&raw[..at], &raw[at + 1..]),
            None => ("", raw),
        };
        finish_path(self.dirs.get(parent).map(|dir| dir.as_str()), name)
    }

    fn may_change(&self, path: &str) -> bool {
        self.privileged || !self.protected.contains(path)
    }

    fn perform(&mut self, action: Action) -> Event {
        match action {
            Action::Resolve(raw) => Event::Resolved(self.resolve(&raw)),
            Action::Probe { install, source } => Event::Probed {
                install: self.files.get(&install).copied(),
                source: self.files.get(&source).copied(),
            },
            Action::Remove(path) => {
                self.mutations.push(format!("remove {}", path));
                if self.files.contains_key(&path) && self.may_change(&path) {
                    self.files.remove(&path);
                    Event::Removed(true)
                } else {
                    Event::Removed(false)
                }
            }
            Action::Link { source, install } => {
                self.mutations.push(format!("link {} {}", source, install));
                let found = self.files.get(&source).copied();
                match found {
                    None => Event::LinkAttempted(Err(LinkError::SourceMissing)),
                    Some(_) if self.files.contains_key(&install) => {
                        Event::LinkAttempted(Err(LinkError::Other))
                    }
                    Some(_) if !self.may_change(&install) => {
                        Event::LinkAttempted(Err(LinkError::PermissionDenied))
                    }
                    Some(identity) => {
                        self.files.insert(install, identity);
                        Event::LinkAttempted(Ok(()))
                    }
                }
            }
            Action::Escalate => {
                self.mutations.push(String::from("escalate"));
                self.privileged = self.privileged || self.escalates;
                Event::Escalated(self.escalates)
            }
            Action::Finish(_) => panic!("a finished run asks for nothing"),
        }
    }

    fn run(&mut self, mut machine: Reconciler) -> (Result<(), SimpleRunError>, Vec<EntryState>) {
        let mut turns = 0;
        loop {
            match machine.pending() {
                Action::Finish(result) => {
                    assert!(machine.finished());
                    assert_eq!(machine.verdict(), result);
                    return (result, machine.states);
                }
                action => {
                    assert!(!machine.finished());
                    let event = self.perform(action);
                    machine.step(event);
                }
            }
            turns += 1;
            assert!(turns <= 7 * 100, "the run does not end");
        }
    }

    fn linked(&self, a: &str, b: &str) -> bool {
        Filemap::is_hard_linked(self.files.get(a).copied(), self.files.get(b).copied())
    }
}

fn vimrc_map() -> Filemap {
    Filemap {
        names: vec![String::from("vimrc")],
        source_paths: vec![String::from("./dotfiles/vimrc")],
        install_paths: vec![String::from("~/.vimrc")],
    }
}

fn two_entry_map() -> Filemap {
    Filemap {
        names: vec![String::from("vimrc"), String::from("hosts")],
        source_paths: vec![String::from("./dotfiles/vimrc"), String::from("./dotfiles/hosts")],
        install_paths: vec![String::from("~/.vimrc"), String::from("/etc/hosts")],
    }
}

#[test]
fn install_links_a_fresh_entry_and_check_confirms_it() {
    let mut disk = Disk::new().with_file("/repo/dotfiles/vimrc", 11);
    let (result, states) = disk.run(install(vimrc_map()));
    assert_eq!(result, Ok(()));
    assert_eq!(states, vec![EntryState::Linked]);
    assert_eq!(disk.mutations, vec![String::from("link /repo/dotfiles/vimrc /home/alice/.vimrc")]);
    assert!(disk.linked("/home/alice/.vimrc", "/repo/dotfiles/vimrc"));

    let (result, states) = disk.run(check(vimrc_map()));
    assert_eq!(result, Ok(()));
    assert_eq!(states, vec![EntryState::Linked]);
}

#[test]
fn check_reports_an_ordinary_copy_as_unlinked_and_leaves_it() {
    let mut disk =
        Disk::new().with_file("/repo/dotfiles/vimrc", 11).with_file("/home/alice/.vimrc", 12);
    let before = disk.files.clone();
    let (result, states) = disk.run(check(vimrc_map()));
    assert_eq!(result, Err(SimpleRunError::UnlinkedFilesFound));
    assert_eq!(states, vec![EntryState::Unlinked]);
    assert_eq!(disk.files, before);
    assert!(disk.mutations.is_empty());
}

#[test]
fn check_reports_a_missing_install_as_unlinked() {
    let mut disk = Disk::new().with_file("/repo/dotfiles/vimrc", 11);
    let (result, states) = disk.run(check(vimrc_map()));
    assert_eq!(result, Err(SimpleRunError::UnlinkedFilesFound));
    assert_eq!(states, vec![EntryState::Unlinked]);
}

#[test]
fn install_twice_changes_nothing_the_second_time() {
    let mut disk = Disk::new()
        .with_file("/repo/dotfiles/vimrc", 11)
        .with_file("/repo/dotfiles/hosts", 12)
        .with_file("/etc/hosts", 13);
    let (result, states) = disk.run(install(two_entry_map()));
    assert_eq!(result, Ok(()));
    assert_eq!(states, vec![EntryState::Linked, EntryState::Linked]);
    let after_first = disk.files.clone();
    disk.mutations.clear();

    let (result, states) = disk.run(install(two_entry_map()));
    assert_eq!(result, Ok(()));
    assert_eq!(states, vec![EntryState::Linked, EntryState::Linked]);
    assert!(disk.mutations.is_empty());
    assert_eq!(disk.files, after_first);
}

#[test]
fn install_converges_for_every_entry_whose_source_exists() {
    let mut disk = Disk::new()
        .with_file("/repo/dotfiles/vimrc", 11)
        .with_file("/repo/dotfiles/hosts", 12)
        .with_file("/etc/hosts", 13);
    disk.run(install(two_entry_map()));
    assert!(disk.linked("/home/alice/.vimrc", "/repo/dotfiles/vimrc"));
    assert!(disk.linked("/etc/hosts", "/repo/dotfiles/hosts"));
    assert_eq!(disk.files["/etc/hosts"].inode_number, 12);
}

#[test]
fn check_after_a_full_install_is_all_clear() {
    let mut disk = Disk::new()
        .with_file("/repo/dotfiles/vimrc", 11)
        .with_file("/repo/dotfiles/hosts", 12);
    let (result, _) = disk.run(install(two_entry_map()));
    assert_eq!(result, Ok(()));
    let (result, states) = disk.run(check(two_entry_map()));
    assert_eq!(result, Ok(()));
    assert!(states.iter().all(|state| *state == EntryState::Linked));
    assert!(!states.contains(&EntryState::Unlinked));
}

#[test]
fn install_replaces_an_ordinary_copy() {
    let mut disk =
        Disk::new().with_file("/repo/dotfiles/vimrc", 11).with_file("/home/alice/.vimrc", 12);
    let (result, states) = disk.run(install(vimrc_map()));
    assert_eq!(result, Ok(()));
    assert_eq!(states, vec![EntryState::Linked]);
    assert_eq!(
        disk.mutations,
        vec![
            String::from("remove /home/alice/.vimrc"),
            String::from("link /repo/dotfiles/vimrc /home/alice/.vimrc"),
        ]
    );
    assert_eq!(disk.files["/home/alice/.vimrc"].inode_number, 11);
}

#[test]
fn empty_maps_are_refused_before_anything_is_asked() {
    let sentinel = Filemap::new();
    let mut disk = Disk::new();
    let (result, states) = disk.run(install(sentinel.clone()));
    assert_eq!(result, Err(SimpleRunError::NoFilesSpecified));
    assert!(states.is_empty());
    let (result, _) = disk.run(check(sentinel));
    assert_eq!(result, Err(SimpleRunError::NoFilesSpecified));
    let none = Filemap { names: vec![], source_paths: vec![], install_paths: vec![] };
    let (result, _) = disk.run(install(none.clone()));
    assert_eq!(result, Err(SimpleRunError::NoFilesSpecified));
    let (result, _) = disk.run(check(none));
    assert_eq!(result, Err(SimpleRunError::NoFilesSpecified));
    assert!(disk.mutations.is_empty());
}

#[test]
fn an_entry_that_does_not_resolve_is_skipped_and_the_rest_goes_on() {
    let map = Filemap {
        names: vec![String::from("lost"), String::from("vimrc")],
        source_paths: vec![String::from("./dotfiles/lost"), String::from("./dotfiles/vimrc")],
        install_paths: vec![String::from("/nowhere/lost"), String::from("~/.vimrc")],
    };
    let mut disk = Disk::new()
        .with_file("/repo/dotfiles/vimrc", 11)
        .with_file("/repo/dotfiles/lost", 12);
    let (result, states) = disk.run(install(map.clone()));
    assert_eq!(result, Ok(()));
    assert_eq!(
        states,
        vec![
            EntryState::Skipped(SkipReason::Unresolved(PathError::ParentNotFound)),
            EntryState::Linked,
        ]
    );
    let (result, states) = disk.run(check(map));
    assert_eq!(result, Ok(()));
    assert_eq!(
        states,
        vec![
            EntryState::Skipped(SkipReason::Unresolved(PathError::ParentNotFound)),
            EntryState::Linked,
        ]
    );
}

#[test]
fn an_entry_without_a_home_directory_is_skipped() {
    let mut disk = Disk::new().with_file("/repo/dotfiles/vimrc", 11);
    disk.home = None;
    let (result, states) = disk.run(install(vimrc_map()));
    assert_eq!(result, Ok(()));
    assert_eq!(
        states,
        vec![EntryState::Skipped(SkipReason::Unresolved(PathError::HomeDirUnavailable))]
    );
    assert!(disk.mutations.is_empty());
}

#[test]
fn a_missing_source_is_skipped() {
    let mut disk = Disk::new().with_file("/repo/dotfiles/hosts", 12);
    let (result, states) = disk.run(install(two_entry_map()));
    assert_eq!(result, Ok(()));
    assert_eq!(
        states,
        vec![EntryState::Skipped(SkipReason::SourceMissing), EntryState::Linked]
    );
}

#[test]
fn permission_denied_asks_for_privileges_once_and_tries_again() {
    let mut disk = Disk::new().with_file("/repo/dotfiles/hosts", 12);
    disk.protected.insert(String::from("/etc/hosts"));
    disk.escalates = true;
    let map = Filemap {
        names: vec![String::from("hosts")],
        source_paths: vec![String::from("./dotfiles/hosts")],
        install_paths: vec![String::from("/etc/hosts")],
    };
    let (result, states) = disk.run(install(map));
    assert_eq!(result, Ok(()));
    assert_eq!(states, vec![EntryState::Linked]);
    assert_eq!(
        disk.mutations,
        vec![
            String::from("link /repo/dotfiles/hosts /etc/hosts"),
            String::from("escalate"),
            String::from("link /repo/dotfiles/hosts /etc/hosts"),
        ]
    );
    assert!(disk.linked("/etc/hosts", "/repo/dotfiles/hosts"));
}

#[test]
fn refused_privileges_skip_the_entry() {
    let mut disk = Disk::new().with_file("/repo/dotfiles/hosts", 12);
    disk.protected.insert(String::from("/etc/hosts"));
    let map = Filemap {
        names: vec![String::from("hosts")],
        source_paths: vec![String::from("./dotfiles/hosts")],
        install_paths: vec![String::from("/etc/hosts")],
    };
    let (result, states) = disk.run(install(map));
    assert_eq!(result, Ok(()));
    assert_eq!(states, vec![EntryState::Skipped(SkipReason::PermissionDenied)]);
    assert!(!disk.files.contains_key("/etc/hosts"));
}

#[test]
fn a_second_denial_does_not_ask_again() {
    let mut machine = install(vimrc_map());
    machine.step(Event::Resolved(Ok(String::from("/home/alice/.vimrc"))));
    machine.step(Event::Resolved(Ok(String::from("/repo/dotfiles/vimrc"))));
    machine.step(Event::Probed {
        install: None,
        source: Some(LinkIdentity { device_id: 7, inode_number: 11 }),
    });
    assert_eq!(machine.phase, Phase::Link);
    machine.step(Event::LinkAttempted(Err(LinkError::PermissionDenied)));
    assert_eq!(machine.pending(), Action::Escalate);
    machine.step(Event::Escalated(true));
    assert_eq!(machine.phase, Phase::LinkRetry);
    assert_eq!(
        machine.pending(),
        Action::Link {
            source: String::from("/repo/dotfiles/vimrc"),
            install: String::from("/home/alice/.vimrc"),
        }
    );
    machine.step(Event::LinkAttempted(Err(LinkError::PermissionDenied)));
    assert_eq!(machine.states, vec![EntryState::Skipped(SkipReason::PermissionDenied)]);
    assert_eq!(machine.pending(), Action::Finish(Ok(())));
}

#[test]
fn any_other_failure_to_link_skips_the_entry() {
    let mut machine = install(vimrc_map());
    machine.step(Event::Resolved(Ok(String::from("/home/alice/.vimrc"))));
    machine.step(Event::Resolved(Ok(String::from("/repo/dotfiles/vimrc"))));
    machine.step(Event::Probed { install: None, source: None });
    machine.step(Event::LinkAttempted(Err(LinkError::Other)));
    assert_eq!(machine.states, vec![EntryState::Skipped(SkipReason::Other)]);
    assert!(machine.finished());
    assert_eq!(machine.verdict(), Ok(()));
}

#[test]
fn a_failed_removal_falls_through_to_the_link() {
    let mut disk =
        Disk::new().with_file("/repo/dotfiles/hosts", 12).with_file("/etc/hosts", 13);
    disk.protected.insert(String::from("/etc/hosts"));
    let map = Filemap {
        names: vec![String::from("hosts")],
        source_paths: vec![String::from("./dotfiles/hosts")],
        install_paths: vec![String::from("/etc/hosts")],
    };
    let (result, states) = disk.run(install(map));
    assert_eq!(result, Ok(()));
    assert_eq!(states, vec![EntryState::Skipped(SkipReason::Other)]);
    assert_eq!(
        disk.mutations,
        vec![
            String::from("remove /etc/hosts"),
            String::from("link /repo/dotfiles/hosts /etc/hosts"),
        ]
    );
    assert_eq!(disk.files["/etc/hosts"].inode_number, 13);
}

#[test]
fn the_machine_asks_in_order() {
    let mut machine = install(vimrc_map());
    assert_eq!(machine.mode, Mode::Install);
    assert_eq!(machine.pending(), Action::Resolve(String::from("~/.vimrc")));
    machine.step(Event::Resolved(Ok(String::from("/home/alice/.vimrc"))));
    assert_eq!(machine.pending(), Action::Resolve(String::from("./dotfiles/vimrc")));
    machine.step(Event::Resolved(Ok(String::from("/repo/dotfiles/vimrc"))));
    assert_eq!(
        machine.pending(),
        Action::Probe {
            install: String::from("/home/alice/.vimrc"),
            source: String::from("/repo/dotfiles/vimrc"),
        }
    );
    machine.step(Event::Probed {
        install: Some(LinkIdentity { device_id: 7, inode_number: 12 }),
        source: Some(LinkIdentity { device_id: 7, inode_number: 11 }),
    });
    assert_eq!(machine.pending(), Action::Remove(String::from("/home/alice/.vimrc")));
    machine.step(Event::Removed(true));
    assert_eq!(
        machine.pending(),
        Action::Link {
            source: String::from("/repo/dotfiles/vimrc"),
            install: String::from("/home/alice/.vimrc"),
        }
    );
    machine.step(Event::LinkAttempted(Ok(())));
    assert_eq!(machine.pending(), Action::Finish(Ok(())));
    assert_eq!(machine.states, vec![EntryState::Linked]);
}

#[test]
fn an_event_that_answers_nothing_is_ignored() {
    let mut machine = check(vimrc_map());
    assert_eq!(machine.mode, Mode::Check);
    machine.step(Event::Removed(true));
    machine.step(Event::Escalated(true));
    machine.step(Event::LinkAttempted(Ok(())));
    machine.step(Event::Probed { install: None, source: None });
    assert_eq!(machine.phase, Phase::ResolveInstall);
    assert_eq!(machine.index, 0);
    assert!(machine.states.is_empty());
    assert_eq!(machine.pending(), Action::Resolve(String::from("~/.vimrc")));
    machine.step(Event::Resolved(Err(PathError::HomeDirUnavailable)));
    assert!(machine.finished());
    machine.step(Event::Resolved(Ok(String::from("/x"))));
    assert!(machine.finished());
    assert_eq!(machine.states.len(), 1);
}

#[test]
fn a_later_entry_that_installs_over_an_earlier_one_undoes_it() {
    let map = Filemap {
        names: vec![String::from("one"), String::from("two")],
        source_paths: vec![String::from("./dotfiles/one"), String::from("./dotfiles/two")],
        install_paths: vec![String::from("~/.rc"), String::from("~/.rc")],
    };
    let mut disk =
        Disk::new().with_file("/repo/dotfiles/one", 1).with_file("/repo/dotfiles/two", 2);
    let (result, states) = disk.run(install(map));
    assert_eq!(result, Ok(()));
    assert_eq!(states, vec![EntryState::Linked, EntryState::Linked]);
    assert!(!disk.linked("/home/alice/.rc", "/repo/dotfiles/one"));
    assert!(disk.linked("/home/alice/.rc", "/repo/dotfiles/two"));
}

#[test]
fn an_entry_that_installs_over_an_earlier_source_makes_the_second_install_work_again() {
    let map = Filemap {
        names: vec![String::from("copy"), String::from("base")],
        source_paths: vec![String::from("./dotfiles/b"), String::from("./dotfiles/a")],
        install_paths: vec![String::from("./dotfiles/c"), String::from("./dotfiles/b")],
    };
    let mut disk = Disk::new().with_file("/repo/dotfiles/a", 1).with_file("/repo/dotfiles/b", 2);
    let (result, states) = disk.run(install(map.clone()));
    assert_eq!(result, Ok(()));
    assert_eq!(states, vec![EntryState::Linked, EntryState::Linked]);
    assert_eq!(disk.files["/repo/dotfiles/c"].inode_number, 2);
    assert_eq!(disk.files["/repo/dotfiles/b"].inode_number, 1);
    let (result, states) = disk.run(check(map.clone()));
    assert_eq!(result, Err(SimpleRunError::UnlinkedFilesFound));
    assert_eq!(states, vec![EntryState::Unlinked, EntryState::Linked]);

    disk.mutations.clear();
    let (result, states) = disk.run(install(map.clone()));
    assert_eq!(result, Ok(()));
    assert_eq!(states, vec![EntryState::Linked, EntryState::Linked]);
    assert_eq!(
        disk.mutations,
        vec![
            String::from("remove /repo/dotfiles/c"),
            String::from("link /repo/dotfiles/b /repo/dotfiles/c"),
        ]
    );
    let (result, _) = disk.run(check(map));
    assert_eq!(result, Ok(()));
}

#[test]
fn a_second_install_changes_nothing_where_entries_were_skipped() {
    let map = Filemap {
        names: vec![String::from("gone"), String::from("vimrc"), String::from("lost")],
        source_paths: vec![
            String::from("./dotfiles/gone"),
            String::from("./dotfiles/vimrc"),
            String::from("./dotfiles/lost"),
        ],
        install_paths: vec![
            String::from("~/.gone"),
            String::from("~/.vimrc"),
            String::from("/nowhere/lost"),
        ],
    };
    let mut disk = Disk::new()
        .with_file("/repo/dotfiles/vimrc", 11)
        .with_file("/home/alice/.gone", 12)
        .with_file("/home/alice/.vimrc", 13);
    let expected = vec![
        EntryState::Skipped(SkipReason::SourceMissing),
        EntryState::Linked,
        EntryState::Skipped(SkipReason::Unresolved(PathError::ParentNotFound)),
    ];
    let (result, states) = disk.run(install(map.clone()));
    assert_eq!(result, Ok(()));
    assert_eq!(states, expected);
    assert!(!disk.files.contains_key("/home/alice/.gone"));
    let after_first = disk.files.clone();

    let (result, states) = disk.run(install(map));
    assert_eq!(result, Ok(()));
    assert_eq!(states, expected);
    assert_eq!(disk.files, after_first);
    assert!(disk.linked("/home/alice/.vimrc", "/repo/dotfiles/vimrc"));
    assert!(!disk.linked("/home/alice/.gone", "/repo/dotfiles/gone"));
}

#[test]
fn an_entry_converges_whatever_an_earlier_entry_put_at_its_install_path() {
    let map = Filemap {
        names: vec![String::from("one"), String::from("two")],
        source_paths: vec![String::from("./dotfiles/one"), String::from("./dotfiles/two")],
        install_paths: vec![String::from("~/.rc"), String::from("~/.rc")],
    };
    let mut disk = Disk::new()
        .with_file("/repo/dotfiles/one", 1)
        .with_file("/repo/dotfiles/two", 2)
        .with_file("/home/alice/.rc", 3);
    let (result, states) = disk.run(install(map));
    assert_eq!(result, Ok(()));
    assert_eq!(states[1], EntryState::Linked);
    assert!(disk.linked("/home/alice/.rc", "/repo/dotfiles/two"));
    assert_eq!(disk.files["/home/alice/.rc"].inode_number, 2);
}

#[test]
fn a_later_entry_that_links_the_same_file_leaves_the_earlier_link_alone() {
    let map = Filemap {
        names: vec![String::from("vimrc"), String::from("again")],
        source_paths: vec![String::from("./dotfiles/vimrc"), String::from("./dotfiles/vimrc")],
        install_paths: vec![String::from("~/.vimrc"), String::from("~/.vimrc")],
    };
    let mut disk = Disk::new().with_file("/repo/dotfiles/vimrc", 11);
    let (result, states) = disk.run(install(map));
    assert_eq!(result, Ok(()));
    assert_eq!(states, vec![EntryState::Linked, EntryState::Linked]);
    assert_eq!(disk.mutations, vec![String::from("link /repo/dotfiles/vimrc /home/alice/.vimrc")]);
    assert!(disk.linked("/home/alice/.vimrc", "/repo/dotfiles/vimrc"));
}

#[test]
fn privileges_gained_in_a_first_install_let_the_second_do_more() {
    let map = Filemap {
        names: vec![String::from("hosts"), String::from("fstab")],
        source_paths: vec![String::from("./dotfiles/hosts"), String::from("./dotfiles/fstab")],
        install_paths: vec![String::from("/etc/hosts"), String::from("/etc/fstab")],
    };
    let mut disk = Disk::new()
        .with_file("/repo/dotfiles/hosts", 1)
        .with_file("/repo/dotfiles/fstab", 2)
        .with_file("/etc/hosts", 3);
    disk.protected.insert(String::from("/etc/hosts"));
    disk.protected.insert(String::from("/etc/fstab"));
    disk.escalates = true;
    let (result, states) = disk.run(install(map.clone()));
    assert_eq!(result, Ok(()));
    assert_eq!(states, vec![EntryState::Skipped(SkipReason::Other), EntryState::Linked]);
    let (result, states) = disk.run(install(map));
    assert_eq!(result, Ok(()));
    assert_eq!(states, vec![EntryState::Linked, EntryState::Linked]);
}
