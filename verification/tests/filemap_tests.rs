use rusty_dotfiler::error::{SaveError, SimpleRunError};
use rusty_dotfiler::filemap::{Entry, Filemap};
use rusty_dotfiler::link::LinkIdentity;

fn text(s: &str) -> String {
    String::from(s)
}

#[test]
fn new_map_is_the_sentinel() {
    let map = Filemap::new();
    assert_eq!(map.names, vec![text("")]);
    assert_eq!(map.source_paths, vec![text("")]);
    assert_eq!(map.install_paths, vec![text("")]);
    assert!(map.check_empty());
    assert!(map.is_aligned());
    assert_eq!(map.len(), 1);
}

#[test]
fn map_without_entries_is_empty() {
    let map = Filemap { names: vec![], source_paths: vec![], install_paths: vec![] };
    assert!(map.check_empty());
}

#[test]
fn map_with_a_named_entry_is_not_empty() {
    let map = Filemap {
        names: vec![text("vimrc")],
        source_paths: vec![text("./dotfiles/vimrc")],
        install_paths: vec![text("~/.vimrc")],
    };
    assert!(!map.check_empty());
}

#[test]
fn map_with_two_entries_is_not_empty_even_if_the_first_has_no_name() {
    let map = Filemap {
        names: vec![text(""), text("vimrc")],
        source_paths: vec![text(""), text("./dotfiles/vimrc")],
        install_paths: vec![text(""), text("~/.vimrc")],
    };
    assert!(!map.check_empty());
}

#[test]
fn push_entry_and_clear() {
    let mut map = Filemap::new();
    map.clear();
    assert_eq!(map.len(), 0);
    map.push(Entry {
        name: text("vimrc"),
        source_path: text("./dotfiles/vimrc"),
        install_path: text("~/.vimrc"),
    });
    assert_eq!(map.len(), 1);
    let entry = map.entry(0);
    assert_eq!(entry.name, "vimrc");
    assert_eq!(entry.source_path, "./dotfiles/vimrc");
    assert_eq!(entry.install_path, "~/.vimrc");
}

#[test]
fn misaligned_map_is_detected() {
    let map = Filemap { names: vec![text("a")], source_paths: vec![], install_paths: vec![text("b")] };
    assert!(!map.is_aligned());
}

#[test]
fn hard_link_needs_both_lookups_and_one_identity() {
    let a = LinkIdentity { device_id: 1, inode_number: 42 };
    let same = LinkIdentity { device_id: 1, inode_number: 42 };
    let other_inode = LinkIdentity { device_id: 1, inode_number: 43 };
    let other_device = LinkIdentity { device_id: 2, inode_number: 42 };
    assert!(Filemap::is_hard_linked(Some(a), Some(same)));
    assert!(!Filemap::is_hard_linked(Some(a), Some(other_inode)));
    assert!(!Filemap::is_hard_linked(Some(a), Some(other_device)));
    assert!(!Filemap::is_hard_linked(None, Some(a)));
    assert!(!Filemap::is_hard_linked(Some(a), None));
    assert!(!Filemap::is_hard_linked(None, None));
}

#[test]
fn error_messages() {
    assert_eq!(SimpleRunError::UnparsableFilepath.as_str(), "Unparsable filepath specified");
    assert_eq!(SimpleRunError::InvalidFilename.as_str(), "Invalid filename");
    assert_eq!(
        SimpleRunError::FailedToSave.as_str(),
        "Failed to save filemap, chech the directory is accessible and not full."
    );
    assert_eq!(SimpleRunError::FailedToLink.as_str(), "Failed to create link");
    assert_eq!(
        SimpleRunError::NoFilesSpecified.as_str(),
        "No files specified! Run `rusty-dotfiler configure` to generate a filemap from your dotfiles."
    );
    assert_eq!(SimpleRunError::FailedToRead.as_str(), "Failed to read directory tree.");
    assert_eq!(
        SimpleRunError::UnlinkedFilesFound.as_str(),
        "Some dotfiles aren't linked! Run `rusty-dotfiler install` to link them."
    );
    assert_eq!(SimpleRunError::SaveError.as_str(), "Can't save filemap.");
    assert_eq!(SaveError.as_str(), "Can't save filemap.");
}

#[test]
fn io_error_becomes_failed_to_save() {
    let error = std::io::Error::new(std::io::ErrorKind::Other, "disk full");
    assert_eq!(SimpleRunError::from(error), SimpleRunError::FailedToSave);
}
