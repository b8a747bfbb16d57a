//! Building a file map by asking about each file that a walk offered.
//!
//! For each offered path the user is asked for a name and then for the place
//! to install to. Answers are taken as they were read, line end included,
//! and trimmed. An answer of `!` to either question passes the file over,
//! and so does input that cannot be read. Every other pair of answers
//! becomes an entry with the offered path as its source.

use vstd::prelude::*;
use vstd::string::*;
use crate::error::SimpleRunError;
use crate::filemap::{Entry, EntryView, Filemap};
use crate::text::{trim, trimmed};

verus! {

/// What the dialogue needs next.
#[derive(Debug, PartialEq, Eq)]
pub enum Prompt {
    /// Show this offered path and ask for the entry's name.
    Name(String),
    /// Ask where to install to.
    Install,
    /// All is asked: the map is ready to be saved.
    Save,
}

/// A `Prompt` as plain text.
pub enum PromptView {
    Name(Seq<char>),
    Install,
    Save,
}

impl View for Prompt {
    type V = PromptView;

    open spec fn view(&self) -> PromptView {
        match self {
            Prompt::Name(path) => PromptView::Name(path@),
            Prompt::Install => PromptView::Install,
            Prompt::Save => PromptView::Save,
        }
    }
}

/// The answer that passes a file over, once it is trimmed.
pub open spec fn skip_mark() -> Seq<char> {
    seq!['!']
}

/// The state of the dialogue as plain values.
pub struct Dialogue {
    /// The offered paths.
    pub paths: Seq<Seq<char>>,
    /// The position of the path that is being asked about.
    pub index: int,
    /// Whether the name for that path has been given.
    pub named: bool,
    /// That name, trimmed.
    pub name: Seq<char>,
    /// The entries made so far.
    pub entries: Seq<EntryView>,
}

impl Dialogue {
    /// The dialogue before the first question: no entry is kept from before.
    pub open spec fn start(paths: Seq<Seq<char>>) -> Dialogue {
        Dialogue { paths, index: 0, named: false, name: Seq::empty(), entries: Seq::empty() }
    }

    pub open spec fn well_formed(self) -> bool {
        &&& 0 <= self.index <= self.paths.len()
        &&& self.named ==> self.index < self.paths.len()
    }

    /// What is asked in this state.
    pub open spec fn pending(self) -> PromptView {
        if self.index >= self.paths.len() {
            PromptView::Save
        } else if self.named {
            PromptView::Install
        } else {
            PromptView::Name(self.paths[self.index])
        }
    }

    /// The path at hand is passed over.
    pub open spec fn pass(self) -> Dialogue {
        Dialogue { index: self.index + 1, named: false, ..self }
    }

    /// The state after an answer; `None` is input that could not be read.
    /// Once all is asked, an answer changes nothing.
    pub open spec fn next(self, line: Option<Seq<char>>) -> Dialogue {
        if self.index >= self.paths.len() {
            self
        } else {
            match line {
                None => self.pass(),
                Some(line) => if !self.named {
                    if trimmed(line) == skip_mark() {
                        self.pass()
                    } else {
                        Dialogue { named: true, name: trimmed(line), ..self }
                    }
                } else {
                    if trimmed(line) == skip_mark() {
                        self.pass()
                    } else {
                        Dialogue {
                            index: self.index + 1,
                            named: false,
                            entries: self.entries.push(
                                EntryView {
                                    name: self.name,
                                    source_path: self.paths[self.index],
                                    install_path: trimmed(line),
                                },
                            ),
                            ..self
                        }
                    }
                },
            }
        }
    }
}

/// An answer of `!` to either question, with or without white space around
/// it, passes the file over: no entry is made for the path at hand, the
/// entries made before stay as they are, and the next path is asked about.
pub proof fn law_mark_passes_over(dialogue: Dialogue, line: Seq<char>)
    requires
        dialogue.index < dialogue.paths.len(),
        trimmed(line) == skip_mark(),
    ensures
        dialogue.next(Some(line)).entries == dialogue.entries,
        dialogue.next(Some(line)).index == dialogue.index + 1,
        !dialogue.next(Some(line)).named,
{
}

/// A dialogue in progress.
#[derive(Debug)]
pub struct Configurator {
    pub paths: Vec<String>,
    pub index: usize,
    pub named: bool,
    pub name: String,
    pub map: Filemap,
}

impl View for Configurator {
    type V = Dialogue;

    open spec fn view(&self) -> Dialogue {
        Dialogue {
            paths: self.paths.deep_view(),
            index: self.index as int,
            named: self.named,
            name: self.name@,
            entries: self.map@,
        }
    }
}

/// Whether a trimmed answer is the mark that passes a file over.
pub fn is_skip_mark(line: &str) -> (skip: bool)
    ensures
        skip == (line@ == skip_mark()),
{
    let skip = line.unicode_len() == 1 && line.get_char(0) == '!';
    assert(skip ==> line@ =~= skip_mark());
    skip
}

impl Configurator {
    pub open spec fn well_formed(&self) -> bool {
        &&& self.map.well_formed()
        &&& self@.well_formed()
    }

    /// What to ask next.
    pub fn pending(&self) -> (prompt: Prompt)
        requires
            self.well_formed(),
        ensures
            prompt@ == self@.pending(),
    {
        if self.index >= self.paths.len() {
            Prompt::Save
        } else if self.named {
            Prompt::Install
        } else {
            Prompt::Name(self.paths[self.index].clone())
        }
    }

    fn pass(&mut self)
        requires
            old(self).well_formed(),
            old(self).index < old(self).paths@.len(),
        ensures
            final(self).well_formed(),
            final(self)@ == old(self)@.pass(),
    {
        let count = self.paths.len();
        assert(self.index < count);
        self.index = self.index + 1;
        self.named = false;
    }

    /// Takes the answer to the pending question; `None` where the input
    /// could not be read.
    pub fn answer(&mut self, line: Option<String>)
        requires
            old(self).well_formed(),
        ensures
            final(self).well_formed(),
            final(self)@ == old(self)@.next(line.deep_view()),
    {
        if self.index >= self.paths.len() {
            return ;
        }
        match line {
            None => self.pass(),
            Some(line) => {
                if !self.named {
                    let name = trim(line.as_str());
                    if is_skip_mark(name.as_str()) {
                        self.pass();
                    } else {
                        self.name = name;
                        self.named = true;
                    }
                } else {
                    let install_path = trim(line.as_str());
                    if is_skip_mark(install_path.as_str()) {
                        self.pass();
                    } else {
                        let entry = Entry {
                            name: self.name.clone(),
                            source_path: self.paths[self.index].clone(),
                            install_path,
                        };
                        self.map.push(entry);
                        self.index = self.index + 1;
                        self.named = false;
                    }
                }
            },
        }
    }
}

/// Starts the dialogue over what a walk of the tree gave. The entries that
/// `filemap` held are dropped. A walk that failed ends it at once, with
/// `FailedToRead` whatever the walk's own error was.
pub fn configure(filemap: Filemap, walk: Result<Vec<String>, SimpleRunError>) -> (result: Result<
    Configurator,
    SimpleRunError,
>)
    ensures
        match walk {
            Ok(paths) => result is Ok && result->Ok_0.well_formed() && result->Ok_0@
                == Dialogue::start(paths.deep_view()),
            Err(_) => result is Err && result->Err_0 == SimpleRunError::FailedToRead,
        },
{
    match walk {
        Ok(paths) => {
            let mut map = filemap;
            map.clear();
            Ok(Configurator { paths, index: 0, named: false, name: String::new(), map })
        },
        Err(_) => Err(SimpleRunError::FailedToRead),
    }
}

/// How the dialogue ends, given how saving the map went: a map that could
/// not be saved is `FailedToSave`.
pub fn conclude(saved: Result<(), SimpleRunError>) -> (result: Result<(), SimpleRunError>)
    ensures
        result == (match saved {
            Ok(()) => Ok::<(), SimpleRunError>(()),
            Err(_) => Err::<(), SimpleRunError>(SimpleRunError::FailedToSave),
        }),
{
    match saved {
        Ok(()) => Ok(()),
        Err(_) => Err(SimpleRunError::FailedToSave),
    }
}

} // verus!
