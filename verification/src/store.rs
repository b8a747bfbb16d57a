//! The file map on disk: a TOML document with three lists of strings,
//! `names`, `source_paths` and `install_paths`.
//!
//! Reading and writing the file is left to the caller; this module turns
//! text into a map and a map into text, and says what to do when the file
//! could not be read.

use vstd::prelude::*;
use vstd::string::*;
use crate::error::SimpleRunError;
use crate::filemap::{declares_nothing, sentinel, EntryView, Filemap};

verus! {

/// One key of a document with what stands under it, as far as a file map
/// can use it.
#[derive(Debug, PartialEq, Eq)]
pub struct Field {
    pub key: String,
    /// The items of the list under the key, each `None` where it is not a
    /// string; `None` as a whole where no list stands under the key.
    pub strings: Option<Vec<Option<String>>>,
}

/// A `Field` as plain text.
pub struct FieldView {
    pub key: Seq<char>,
    pub strings: Option<Seq<Option<Seq<char>>>>,
}

impl DeepView for Field {
    type V = FieldView;

    open spec fn deep_view(&self) -> FieldView {
        FieldView { key: self.key@, strings: self.strings.deep_view() }
    }
}

/// The top-level keys of the TOML document that `text` holds, in the order
/// in which `toml` hands them out, or `None` where `text` is no TOML document.
pub uninterp spec fn parsed(text: Seq<char>) -> Option<Seq<FieldView>>;

/// The text that `toml` writes for a document with three lists of strings
/// under three keys, or `None` where it cannot write one.
pub uninterp spec fn rendered(
    first_key: Seq<char>,
    first: Seq<Seq<char>>,
    second_key: Seq<char>,
    second: Seq<Seq<char>>,
    third_key: Seq<char>,
    third: Seq<Seq<char>>,
) -> Option<Seq<char>>;

/// Calls `toml::from_str` for a table and hands out its keys one by one,
/// each with what `toml::Value::as_array` and, for each item of the array,
/// `toml::Value::as_str` find under it. What comes back depends on the text
/// alone.
#[verifier::external_body]
fn parse_document(text: &str) -> (document: Option<Vec<Field>>)
    ensures
        document.deep_view() == parsed(text@),
{
    let table = toml::from_str::<toml::Table>(text).ok()?;
    Some(table.iter().map(|(key, value)| Field {
        key: key.clone(),
        strings: value.as_array().map(|items| {
            items.iter().map(|item| item.as_str().map(String::from)).collect()
        }),
    }).collect())
}

/// Calls `toml::to_string` on a table that holds the three lists under the
/// three keys. What comes back depends on the keys and the lists alone.
#[verifier::external_body]
fn render_document(
    first_key: &str,
    first: &Vec<String>,
    second_key: &str,
    second: &Vec<String>,
    third_key: &str,
    third: &Vec<String>,
) -> (text: Option<String>)
    ensures
        text.deep_view() == rendered(
            first_key@,
            first.deep_view(),
            second_key@,
            second.deep_view(),
            third_key@,
            third.deep_view(),
        ),
{
    let mut table = toml::Table::new();
    table.insert(String::from(first_key), toml::Value::from(first.clone()));
    table.insert(String::from(second_key), toml::Value::from(second.clone()));
    table.insert(String::from(third_key), toml::Value::from(third.clone()));
    toml::to_string(&table).ok()
}

/// The key of the list of names.
pub open spec fn names_key() -> Seq<char> {
    "names"@
}

/// The key of the list of source paths.
pub open spec fn source_paths_key() -> Seq<char> {
    "source_paths"@
}

/// The key of the list of install paths.
pub open spec fn install_paths_key() -> Seq<char> {
    "install_paths"@
}

/// The items as strings, where each of them is one.
pub open spec fn all_text(items: Seq<Option<Seq<char>>>) -> Option<Seq<Seq<char>>> {
    if forall|i: int| 0 <= i < items.len() ==> (#[trigger] items[i]) is Some {
        Some(Seq::new(items.len(), |i: int| items[i]->0))
    } else {
        None
    }
}

/// The list of strings under the first field with this key: `None` where
/// no field has the key, or no list of strings stands under it.
pub open spec fn list(fields: Seq<FieldView>, key: Seq<char>) -> Option<Seq<Seq<char>>>
    decreases fields.len(),
{
    if fields.len() == 0 {
        None
    } else if fields[0].key == key {
        match fields[0].strings {
            Some(items) => all_text(items),
            None => None,
        }
    } else {
        list(fields.skip(1), key)
    }
}

/// The entries that a document declares: it must hold the three lists, and
/// they must have one length.
pub open spec fn decoded(fields: Seq<FieldView>) -> Option<Seq<EntryView>> {
    match (
        list(fields, names_key()),
        list(fields, source_paths_key()),
        list(fields, install_paths_key()),
    ) {
        (Some(names), Some(source_paths), Some(install_paths)) => if source_paths.len()
            == names.len() && install_paths.len() == names.len() {
            Some(
                Seq::new(
                    names.len(),
                    |i: int|
                        EntryView {
                            name: names[i],
                            source_path: source_paths[i],
                            install_path: install_paths[i],
                        },
                ),
            )
        } else {
            None
        },
        _ => None,
    }
}

/// The fields of the document that holds the three lists and nothing else.
pub open spec fn document_of(
    names: Seq<Seq<char>>,
    source_paths: Seq<Seq<char>>,
    install_paths: Seq<Seq<char>>,
) -> Seq<FieldView> {
    seq![
        FieldView { key: names_key(), strings: Some(names.map_values(|text| Some(text))) },
        FieldView {
            key: source_paths_key(),
            strings: Some(source_paths.map_values(|text| Some(text))),
        },
        FieldView {
            key: install_paths_key(),
            strings: Some(install_paths.map_values(|text| Some(text))),
        },
    ]
}

/// Reading back what was written down loses nothing: the document that
/// holds three lists of one length declares the entries made of them.
pub proof fn law_document_declares_its_lists(
    names: Seq<Seq<char>>,
    source_paths: Seq<Seq<char>>,
    install_paths: Seq<Seq<char>>,
)
    requires
        source_paths.len() == names.len(),
        install_paths.len() == names.len(),
    ensures
        decoded(document_of(names, source_paths, install_paths)) == Some(
            Seq::new(
                names.len(),
                |i: int|
                    EntryView {
                        name: names[i],
                        source_path: source_paths[i],
                        install_path: install_paths[i],
                    },
            ),
        ),
{
    reveal_strlit("names");
    reveal_strlit("source_paths");
    reveal_strlit("install_paths");
    let fields = document_of(names, source_paths, install_paths);
    let behind_first = fields.skip(1);
    let behind_second = behind_first.skip(1);
    assert(behind_first[0] == fields[1]);
    assert(behind_second[0] == fields[2]);
    assert(names_key().len() == 5 && source_paths_key().len() == 12 && install_paths_key().len()
        == 13);
    assert(all_text(names.map_values(|text| Some(text)))->0 =~= names);
    assert(all_text(source_paths.map_values(|text| Some(text)))->0 =~= source_paths);
    assert(all_text(install_paths.map_values(|text| Some(text)))->0 =~= install_paths);
    assert(list(fields, names_key()) == Some(names));
    assert(list(behind_first, source_paths_key()) == Some(source_paths));
    assert(list(behind_second, install_paths_key()) == Some(install_paths));
    assert(list(behind_first, install_paths_key()) == Some(install_paths));
}

/// The strings of a list, where each item is one.
fn text_items(items: &Vec<Option<String>>) -> (strings: Option<Vec<String>>)
    ensures
        strings.deep_view() == all_text(items.deep_view()),
{
    let mut strings: Vec<String> = Vec::new();
    let mut i: usize = 0;
    while i < items.len()
        invariant
            i <= items@.len(),
            strings@.len() == i,
            forall|k: int| 0 <= k < i ==> (#[trigger] items.deep_view()[k]) is Some,
            forall|k: int| 0 <= k < i ==> (#[trigger] strings@[k])@ == items.deep_view()[k]->0,
        decreases items@.len() - i,
    {
        match &items[i] {
            Some(text) => {
                strings.push(text.clone());
            },
            None => {
                assert(items.deep_view()[i as int] is None);
                return None;
            },
        }
        i = i + 1;
    }
    assert(strings.deep_view() =~= all_text(items.deep_view())->0);
    Some(strings)
}

/// The list of strings under a key of the document.
fn find_list(fields: &Vec<Field>, key: &str) -> (strings: Option<Vec<String>>)
    ensures
        strings.deep_view() == list(fields.deep_view(), key@),
{
    let wanted = String::from_str(key);
    let mut i: usize = 0;
    assert(fields.deep_view().skip(0) =~= fields.deep_view());
    while i < fields.len()
        invariant
            i <= fields@.len(),
            wanted@ == key@,
            list(fields.deep_view(), key@) == list(fields.deep_view().skip(i as int), key@),
        decreases fields@.len() - i,
    {
        let ghost rest = fields.deep_view().skip(i as int);
        assert(rest[0] == fields@[i as int].deep_view());
        assert(rest.skip(1) =~= fields.deep_view().skip(i + 1));
        if fields[i].key == wanted {
            return match &fields[i].strings {
                Some(items) => text_items(items),
                None => None,
            };
        }
        i = i + 1;
    }
    None
}

/// What reading the map file gave.
#[derive(Debug, PartialEq, Eq)]
pub enum ReadOutcome {
    Text(String),
    /// There is no such file.
    NotFound,
    /// The file may not be read.
    PermissionDenied,
}

/// Why a fresh map was made.
#[derive(Debug, Clone, Copy, PartialEq, Eq, Structural)]
pub enum FreshReason {
    /// There was no map file.
    Missing,
    /// The map file held no file map.
    Unparsable,
}

/// What loading the map came to.
#[derive(Debug, PartialEq, Eq)]
pub enum Loaded {
    /// The map that the file holds.
    Stored(Filemap),
    /// A fresh map in place of the file's; it has to be saved at once.
    Fresh(Filemap, FreshReason),
    /// The file may not be read: the run cannot go on.
    Denied,
}

impl Filemap {
    /// The map that a document declares.
    pub fn from_document(fields: &Vec<Field>) -> (map: Option<Filemap>)
        ensures
            match decoded(fields.deep_view()) {
                Some(entries) => map is Some && map->0.well_formed() && map->0@ == entries,
                None => map is None,
            },
    {
        let names = find_list(fields, "names");
        let source_paths = find_list(fields, "source_paths");
        let install_paths = find_list(fields, "install_paths");
        match (names, source_paths, install_paths) {
            (Some(names), Some(source_paths), Some(install_paths)) => {
                let map = Filemap { names, source_paths, install_paths };
                if map.is_aligned() {
                    assert(map@ =~= decoded(fields.deep_view())->0);
                    Some(map)
                } else {
                    None
                }
            },
            _ => None,
        }
    }

    /// The map that a text holds, where it holds one.
    pub fn parse(text: &str) -> (map: Option<Filemap>)
        ensures
            match parsed(text@) {
                Some(fields) => match decoded(fields) {
                    Some(entries) => map is Some && map->0.well_formed() && map->0@ == entries,
                    None => map is None,
                },
                None => map is None,
            },
    {
        match parse_document(text) {
            Some(fields) => Filemap::from_document(&fields),
            None => None,
        }
    }

    /// The text to write to the map file, or `SaveError` where the map
    /// cannot be written down.
    pub fn save(&self) -> (text: Result<String, SimpleRunError>)
        ensures
            match rendered(
                names_key(),
                self.names.deep_view(),
                source_paths_key(),
                self.source_paths.deep_view(),
                install_paths_key(),
                self.install_paths.deep_view(),
            ) {
                Some(document) => text is Ok && text->Ok_0@ == document,
                None => text is Err && text->Err_0 == SimpleRunError::SaveError,
            },
    {
        match render_document(
            "names",
            &self.names,
            "source_paths",
            &self.source_paths,
            "install_paths",
            &self.install_paths,
        ) {
            Some(document) => Ok(document),
            None => Err(SimpleRunError::SaveError),
        }
    }

    /// Loads the map from what reading the map file gave: the map that the
    /// file holds; a fresh map of one empty entry, which declares nothing,
    /// where the file is missing or holds no file map; nothing where the
    /// file may not be read.
    pub fn from(read: ReadOutcome) -> (loaded: Loaded)
        ensures
            match read {
                ReadOutcome::NotFound => loaded matches Loaded::Fresh(map, reason) && reason
                    == FreshReason::Missing && map.well_formed() && map@ == sentinel()
                    && map.names.deep_view() == seq![Seq::<char>::empty()]
                    && map.source_paths.deep_view() == seq![Seq::<char>::empty()]
                    && map.install_paths.deep_view() == seq![Seq::<char>::empty()]
                    && declares_nothing(map@),
                ReadOutcome::PermissionDenied => loaded is Denied,
                ReadOutcome::Text(text) => match parsed(text@) {
                    Some(fields) if decoded(fields) is Some => loaded matches Loaded::Stored(map)
                        && map.well_formed() && map@ == decoded(fields)->0,
                    _ => loaded matches Loaded::Fresh(map, reason) && reason
                        == FreshReason::Unparsable && map.well_formed() && map@ == sentinel()
                        && declares_nothing(map@),
                },
            },
    {
        match read {
            ReadOutcome::NotFound => Loaded::Fresh(Filemap::new(), FreshReason::Missing),
            ReadOutcome::PermissionDenied => Loaded::Denied,
            ReadOutcome::Text(text) => match Filemap::parse(text.as_str()) {
                Some(map) => Loaded::Stored(map),
                None => Loaded::Fresh(Filemap::new(), FreshReason::Unparsable),
            },
        }
    }
}

} // verus!
