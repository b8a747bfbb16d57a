//! The file map: which file of the repository belongs where.

use vstd::prelude::*;
use crate::link::{same_file, LinkIdentity};

verus! {

/// One declared correspondence, with the paths as the user wrote them.
#[derive(Debug, Clone, PartialEq, Eq)]
pub struct Entry {
    pub name: String,
    pub source_path: String,
    pub install_path: String,
}

/// An `Entry` as plain text.
pub struct EntryView {
    pub name: Seq<char>,
    pub source_path: Seq<char>,
    pub install_path: Seq<char>,
}

impl View for Entry {
    type V = EntryView;

    open spec fn view(&self) -> EntryView {
        EntryView {
            name: self.name@,
            source_path: self.source_path@,
            install_path: self.install_path@,
        }
    }
}

/// The declared entries, kept as three lists of equal length: the entry at
/// position `i` is made of the `i`th item of each.
#[derive(Debug, Clone, PartialEq, Eq)]
pub struct Filemap {
    pub names: Vec<String>,
    pub source_paths: Vec<String>,
    pub install_paths: Vec<String>,
}

impl View for Filemap {
    type V = Seq<EntryView>;

    /// The entries in order. It has a meaning only for a well-formed map.
    open spec fn view(&self) -> Seq<EntryView> {
        Seq::new(
            self.names@.len(),
            |i: int|
                EntryView {
                    name: self.names@[i]@,
                    source_path: self.source_paths@[i]@,
                    install_path: self.install_paths@[i]@,
                },
        )
    }
}

/// The map that stands for "nothing configured yet": one entry, all of it empty.
pub open spec fn sentinel() -> Seq<EntryView> {
    seq![EntryView { name: Seq::empty(), source_path: Seq::empty(), install_path: Seq::empty() }]
}

/// A list of entries declares nothing when it has no entry, or a single one
/// without a name.
pub open spec fn declares_nothing(entries: Seq<EntryView>) -> bool {
    entries.len() == 0 || (entries.len() == 1 && entries[0].name.len() == 0)
}

impl Filemap {
    /// The three lists are index-aligned.
    pub open spec fn well_formed(&self) -> bool {
        &&& self.source_paths@.len() == self.names@.len()
        &&& self.install_paths@.len() == self.names@.len()
    }

    /// The map a first run starts from: the sentinel entry alone, which
    /// declares nothing.
    pub fn new() -> (map: Filemap)
        ensures
            map.well_formed(),
            map@ == sentinel(),
            map.names.deep_view() == seq![Seq::<char>::empty()],
            map.source_paths.deep_view() == seq![Seq::<char>::empty()],
            map.install_paths.deep_view() == seq![Seq::<char>::empty()],
            declares_nothing(map@),
    {
        let mut names: Vec<String> = Vec::new();
        let mut source_paths: Vec<String> = Vec::new();
        let mut install_paths: Vec<String> = Vec::new();
        names.push(String::new());
        source_paths.push(String::new());
        install_paths.push(String::new());
        let map = Filemap { names, source_paths, install_paths };
        assert(map@ =~= sentinel());
        assert(map.names.deep_view() =~= seq![Seq::<char>::empty()]);
        assert(map.source_paths.deep_view() =~= seq![Seq::<char>::empty()]);
        assert(map.install_paths.deep_view() =~= seq![Seq::<char>::empty()]);
        map
    }

    /// Whether the three lists have one length.
    pub fn is_aligned(&self) -> (aligned: bool)
        ensures
            aligned == self.well_formed(),
    {
        self.source_paths.len() == self.names.len() && self.install_paths.len() == self.names.len()
    }

    /// How many entries the map has.
    pub fn len(&self) -> (n: usize)
        ensures
            n == self@.len(),
    {
        self.names.len()
    }

    /// Whether the map declares nothing.
    pub fn check_empty(&self) -> (empty: bool)
        ensures
            empty == declares_nothing(self@),
    {
        if self.names.len() == 0 {
            return true;
        }
        self.names.len() == 1 && self.names[0].as_str().is_empty()
    }

    /// A copy of the entry at position `i`.
    pub fn entry(&self, i: usize) -> (entry: Entry)
        requires
            self.well_formed(),
            i < self@.len(),
        ensures
            entry@ == self@[i as int],
    {
        Entry {
            name: self.names[i].clone(),
            source_path: self.source_paths[i].clone(),
            install_path: self.install_paths[i].clone(),
        }
    }

    /// Forgets every entry.
    pub fn clear(&mut self)
        ensures
            final(self).well_formed(),
            final(self)@ == Seq::<EntryView>::empty(),
    {
        self.names.clear();
        self.source_paths.clear();
        self.install_paths.clear();
        assert(self@ =~= Seq::<EntryView>::empty());
    }

    /// Adds an entry behind the others.
    pub fn push(&mut self, entry: Entry)
        requires
            old(self).well_formed(),
        ensures
            final(self).well_formed(),
            final(self)@ == old(self)@.push(entry@),
    {
        self.names.push(entry.name);
        self.source_paths.push(entry.source_path);
        self.install_paths.push(entry.install_path);
        assert(self@ =~= old(self)@.push(entry@));
    }

    /// Whether two paths are hardlinks of one file, given what a metadata
    /// lookup found for each (`None` where the lookup failed).
    pub fn is_hard_linked(a: Option<LinkIdentity>, b: Option<LinkIdentity>) -> (linked: bool)
        ensures
            linked == same_file(a, b),
    {
        match (a, b) {
            (Some(a), Some(b)) => a.device_id == b.device_id && a.inode_number == b.inode_number,
            _ => false,
        }
    }
}

} // verus!
