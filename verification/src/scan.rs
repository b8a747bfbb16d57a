//! The walk over a directory tree that offers files for the file map.
//!
//! The tree is handed in as it was read from disk. The walk goes depth
//! first and in the order of the listings, leaves out every directory whose
//! name starts with a dot together with all that is below it, and leaves out
//! the file map itself.

use vstd::prelude::*;
use vstd::string::*;
use crate::error::SimpleRunError;

verus! {

/// The name of an entry of a directory, as far as it could be had.
#[derive(Debug, PartialEq, Eq)]
pub enum EntryName {
    /// The entry's path ends in no name.
    Missing,
    /// The name is not valid Unicode.
    NotUnicode,
    Text(String),
}

/// What was found when a directory was read.
#[derive(Debug, PartialEq, Eq)]
pub enum Listing {
    /// The directory could not be read.
    Unreadable,
    /// All the entries of the directory.
    Entries(Vec<Node>),
    /// The entries that were read before one that could not be read.
    Broken(Vec<Node>),
}

/// A file, or a directory with what it holds.
#[derive(Debug, PartialEq, Eq)]
pub enum Kind {
    File,
    Dir(Listing),
}

/// One entry of a directory.
#[derive(Debug, PartialEq, Eq)]
pub struct Node {
    pub name: EntryName,
    /// The entry's whole path; `None` where it is not valid Unicode.
    pub path: Option<String>,
    pub kind: Kind,
}

/// The name that the file map has on disk. A file of this name is never offered.
pub open spec fn map_file_name() -> Seq<char> {
    "filemap"@
}

/// A name that starts with a dot.
pub open spec fn hidden(name: Seq<char>) -> bool {
    name.len() > 0 && name[0] == '.'
}

/// The paths that the walk finds at and below `node`, or the first error on the way.
pub open spec fn found_at(node: Node) -> Result<Seq<Seq<char>>, SimpleRunError>
    decreases node, 0int,
{
    match node.name {
        EntryName::Missing => Err(SimpleRunError::InvalidFilename),
        EntryName::NotUnicode => Err(SimpleRunError::UnparsableFilepath),
        EntryName::Text(name) => match node.kind {
            Kind::Dir(listing) => if hidden(name@) {
                Ok(Seq::empty())
            } else {
                found_in(listing)
            },
            Kind::File => if name@ == map_file_name() {
                Ok(Seq::empty())
            } else {
                match node.path {
                    Some(path) => Ok(seq![path@]),
                    None => Err(SimpleRunError::UnparsableFilepath),
                }
            },
        },
    }
}

/// The paths that the walk finds in a directory with this listing.
pub open spec fn found_in(listing: Listing) -> Result<Seq<Seq<char>>, SimpleRunError>
    decreases listing, 0int,
{
    match listing {
        Listing::Unreadable => Err(SimpleRunError::FailedToSave),
        Listing::Entries(nodes) => found_among(nodes, nodes@.len() as int),
        Listing::Broken(nodes) => match found_among(nodes, nodes@.len() as int) {
            Err(error) => Err(error),
            Ok(_) => Err(SimpleRunError::FailedToSave),
        },
    }
}

/// The paths that the walk finds at and below the first `count` of `nodes`.
pub open spec fn found_among(nodes: Vec<Node>, count: int) -> Result<
    Seq<Seq<char>>,
    SimpleRunError,
>
    decreases nodes, count,
{
    if count <= 0 || count > nodes@.len() {
        Ok(Seq::empty())
    } else {
        match found_among(nodes, count - 1) {
            Err(error) => Err(error),
            Ok(before) => match found_at(nodes@[count - 1]) {
                Err(error) => Err(error),
                Ok(here) => Ok(before + here),
            },
        }
    }
}

/// An error among the first entries is the error of the whole listing.
proof fn lemma_error_stays(nodes: Vec<Node>, count: int, upto: int)
    requires
        0 <= count <= upto <= nodes@.len(),
        found_among(nodes, count) is Err,
    ensures
        found_among(nodes, upto) == found_among(nodes, count),
    decreases upto - count,
{
    if count < upto {
        lemma_error_stays(nodes, count, upto - 1);
    }
}

/// Whether a name starts with a dot.
pub fn is_hidden(name: &str) -> (dotted: bool)
    ensures
        dotted == hidden(name@),
{
    name.unicode_len() > 0 && name.get_char(0) == '.'
}

/// Whether a name is that of the file map.
pub fn is_map_file(name: &String) -> (reserved: bool)
    ensures
        reserved == (name@ == map_file_name()),
{
    let map_file = String::from_str("filemap");
    *name == map_file
}

/// Walks a directory with this listing and puts what it finds behind `paths`.
pub fn read_dir_tree_branch(listing: &Listing, paths: Vec<String>) -> (result: Result<
    Vec<String>,
    SimpleRunError,
>)
    ensures
        match found_in(*listing) {
            Ok(found) => result is Ok && result->Ok_0.deep_view() == paths.deep_view() + found,
            Err(error) => result is Err && result->Err_0 == error,
        },
    decreases listing,
{
    let (nodes, whole) = match listing {
        Listing::Unreadable => {
            return Err(SimpleRunError::FailedToSave);
        },
        Listing::Entries(nodes) => (nodes, true),
        Listing::Broken(nodes) => (nodes, false),
    };
    let ghost before = paths.deep_view();
    let mut paths = paths;
    let mut i: usize = 0;
    assert(paths.deep_view() =~= before + Seq::<Seq<char>>::empty());
    while i < nodes.len()
        invariant
            i <= nodes@.len(),
            whole ==> *listing == Listing::Entries(*nodes),
            !whole ==> *listing == Listing::Broken(*nodes),
            found_among(*nodes, i as int) is Ok,
            paths.deep_view() == before + found_among(*nodes, i as int)->Ok_0,
        decreases nodes@.len() - i,
    {
        let node = &nodes[i];
        let ghost so_far = found_among(*nodes, i as int)->Ok_0;
        proof {
            assert(nodes@[i as int] == *node);
            if found_at(*node) is Err {
                lemma_error_stays(*nodes, i + 1, nodes@.len() as int);
            }
        }
        match &node.name {
            EntryName::Missing => {
                return Err(SimpleRunError::InvalidFilename);
            },
            EntryName::NotUnicode => {
                return Err(SimpleRunError::UnparsableFilepath);
            },
            EntryName::Text(name) => match &node.kind {
                Kind::Dir(below) => {
                    if !is_hidden(name.as_str()) {
                        match read_dir_tree_branch(below, paths) {
                            Ok(more) => {
                                paths = more;
                                assert(paths.deep_view() =~= before + (so_far + found_at(
                                    *node,
                                )->Ok_0));
                            },
                            Err(error) => {
                                return Err(error);
                            },
                        }
                    } else {
                        assert(paths.deep_view() =~= before + (so_far + found_at(*node)->Ok_0));
                    }
                },
                Kind::File => {
                    if !is_map_file(name) {
                        match &node.path {
                            Some(path) => {
                                let ghost held = paths.deep_view();
                                paths.push(path.clone());
                                assert(paths.deep_view() =~= held.push(path@));
                                assert(found_at(*node)->Ok_0 =~= seq![path@]);
                                assert(paths.deep_view() =~= before + (so_far + found_at(
                                    *node,
                                )->Ok_0));
                            },
                            None => {
                                return Err(SimpleRunError::UnparsableFilepath);
                            },
                        }
                    } else {
                        assert(paths.deep_view() =~= before + (so_far + found_at(*node)->Ok_0));
                    }
                },
            },
        }
        i = i + 1;
    }
    if whole {
        Ok(paths)
    } else {
        Err(SimpleRunError::FailedToSave)
    }
}

/// Walks the tree below a root directory with this listing: the paths of the
/// files that it offers, in the order of the walk, or the first error.
pub fn read_dir_tree(root: &Listing) -> (result: Result<Vec<String>, SimpleRunError>)
    ensures
        match found_in(*root) {
            Ok(found) => result is Ok && result->Ok_0.deep_view() == found,
            Err(error) => result is Err && result->Err_0 == error,
        },
{
    let paths: Vec<String> = Vec::new();
    assert(paths.deep_view() + found_in(*root)->Ok_0 =~= found_in(*root)->Ok_0);
    read_dir_tree_branch(root, paths)
}

/// Nothing at or below a hidden directory is offered, whatever is there.
pub proof fn law_hidden_directory_is_pruned(node: Node)
    requires
        node.kind is Dir,
        node.name is Text,
        hidden(node.name->Text_0@),
    ensures
        found_at(node) == Ok::<Seq<Seq<char>>, SimpleRunError>(Seq::empty()),
{
}

/// The file map is never offered, wherever it is met.
pub proof fn law_map_file_is_left_out(node: Node)
    requires
        node.kind is File,
        node.name is Text,
        node.name->Text_0@ == map_file_name(),
    ensures
        found_at(node) == Ok::<Seq<Seq<char>>, SimpleRunError>(Seq::empty()),
{
}

} // verus!
