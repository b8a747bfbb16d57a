//! Turning a raw path, as the user wrote it, into a canonical one.
//!
//! A path that starts with `~` gets the home directory in place of the `~`
//! and is taken as it then stands. Any other path is split into the
//! directory that holds the file and the file's name; the directory has to
//! be made canonical by whoever can reach the filesystem, and the name is
//! then put behind it. The file itself need not exist.

use vstd::prelude::*;
use vstd::string::*;
use crate::error::PathError;

verus! {

/// What `std::path::Path::parent` gives for a path, as text.
pub uninterp spec fn parent_of(path: Seq<char>) -> Option<Seq<char>>;

/// What `std::path::Path::file_name` gives for a path, as text.
pub uninterp spec fn file_name_of(path: Seq<char>) -> Option<Seq<char>>;

/// Calls `dirs::home_dir`. The answer depends on the user and the
/// environment, so nothing is claimed of it. A home directory whose path is
/// not valid Unicode counts as none.
#[verifier::external_body]
fn home_dir() -> (home: Option<String>) {
    dirs::home_dir().and_then(|home| home.to_str().map(String::from))
}

/// Calls `std::path::Path::parent`: the path without its last component,
/// and `None` where the path ends in a root or is empty.
#[verifier::external_body]
fn path_parent(path: &str) -> (parent: Option<String>)
    ensures
        parent.deep_view() == parent_of(path@),
{
    std::path::Path::new(path).parent().and_then(|parent| parent.to_str()).map(String::from)
}

/// Calls `std::path::Path::file_name`: the last component of the path where
/// that is the name of a file or directory, and `None` where the path ends
/// in `..` or has no component that names anything.
#[verifier::external_body]
fn path_file_name(path: &str) -> (name: Option<String>)
    ensures
        name.deep_view() == file_name_of(path@),
{
    std::path::Path::new(path).file_name().and_then(|name| name.to_str()).map(String::from)
}

/// What has to happen to a raw path.
#[derive(Debug, PartialEq, Eq)]
pub enum PathPlan {
    /// Nothing more: this is the resolved path.
    Resolved(String),
    /// Make `parent` canonical, then put `file_name` behind it.
    Canonicalize { parent: String, file_name: String },
    /// The path cannot be resolved.
    Failed(PathError),
}

/// A `PathPlan` as plain text.
pub enum PathPlanView {
    Resolved(Seq<char>),
    Canonicalize { parent: Seq<char>, file_name: Seq<char> },
    Failed(PathError),
}

impl View for PathPlan {
    type V = PathPlanView;

    open spec fn view(&self) -> PathPlanView {
        match self {
            PathPlan::Resolved(path) => PathPlanView::Resolved(path@),
            PathPlan::Canonicalize { parent, file_name } => PathPlanView::Canonicalize {
                parent: parent@,
                file_name: file_name@,
            },
            PathPlan::Failed(error) => PathPlanView::Failed(*error),
        }
    }
}

/// The path starts with the shorthand for the home directory.
pub open spec fn starts_at_home(raw: Seq<char>) -> bool {
    raw.len() > 0 && raw[0] == '~'
}

/// The home directory in place of the leading `~`. A path without one stays
/// as it is; without a home directory there is nothing to put there.
pub open spec fn expanded(raw: Seq<char>, home: Option<Seq<char>>) -> Result<
    Seq<char>,
    PathError,
> {
    if !starts_at_home(raw) {
        Ok(raw)
    } else {
        match home {
            Some(home) => Ok(home + raw.skip(1)),
            None => Err(PathError::HomeDirUnavailable),
        }
    }
}

/// How a path that does not start at home is taken apart: into the directory
/// to make canonical and the name to put behind it, where it has both.
pub open spec fn split(raw: Seq<char>) -> PathPlanView {
    match (parent_of(raw), file_name_of(raw)) {
        (Some(parent), Some(file_name)) => PathPlanView::Canonicalize { parent, file_name },
        _ => PathPlanView::Failed(PathError::ParentNotFound),
    }
}

/// A path with `name` put behind it, the way `std::path::PathBuf::push` does
/// on Unix: a name that starts at the root takes the place of the path;
/// any other name follows the path, with a `/` between them unless the path
/// is empty or ends in one.
pub open spec fn joined(parent: Seq<char>, name: Seq<char>) -> Seq<char> {
    if name.len() > 0 && name[0] == '/' {
        name
    } else if parent.len() == 0 || parent.last() == '/' {
        parent + name
    } else {
        parent + seq!['/'] + name
    }
}

/// The resolved path, given the canonical form of the parent directory, or
/// `None` where the directory is missing or could not be made canonical.
pub open spec fn finished(canonical_parent: Option<Seq<char>>, file_name: Seq<char>) -> Result<
    Seq<char>,
    PathError,
> {
    match canonical_parent {
        Some(parent) => Ok(joined(parent, file_name)),
        None => Err(PathError::ParentNotFound),
    }
}

/// Whether `raw` starts with `~`.
pub fn begins_at_home(raw: &str) -> (at_home: bool)
    ensures
        at_home == starts_at_home(raw@),
{
    raw.unicode_len() > 0 && raw.get_char(0) == '~'
}

/// Puts `home` in place of a leading `~`.
pub fn expand_home(raw: &str, home: Option<&str>) -> (path: Result<String, PathError>)
    ensures
        match path {
            Ok(text) => expanded(raw@, home.deep_view()) == Ok::<Seq<char>, PathError>(text@),
            Err(error) => expanded(raw@, home.deep_view()) == Err::<Seq<char>, PathError>(error),
        },
{
    if !begins_at_home(raw) {
        return Ok(String::from_str(raw));
    }
    match home {
        Some(home) => {
            let rest = raw.substring_char(1, raw.unicode_len());
            let mut path = String::from_str(home);
            path.append(rest);
            assert(raw@.subrange(1, raw@.len() as int) =~= raw@.skip(1));
            Ok(path)
        },
        None => Err(PathError::HomeDirUnavailable),
    }
}

/// Takes apart a path that does not start at home.
pub fn split_path(raw: &str) -> (plan: PathPlan)
    ensures
        plan@ == split(raw@),
{
    match (path_parent(raw), path_file_name(raw)) {
        (Some(parent), Some(file_name)) => PathPlan::Canonicalize { parent, file_name },
        _ => PathPlan::Failed(PathError::ParentNotFound),
    }
}

/// What has to happen to `target`, decided for any home directory: `home`
/// is what the lookup of the home directory gave.
pub fn plan_path(target: &str, home: Option<&str>) -> (plan: PathPlan)
    ensures
        plan@ == (if starts_at_home(target@) {
            match expanded(target@, home.deep_view()) {
                Ok(path) => PathPlanView::Resolved(path),
                Err(error) => PathPlanView::Failed(error),
            }
        } else {
            split(target@)
        }),
{
    if begins_at_home(target) {
        match expand_home(target, home) {
            Ok(path) => PathPlan::Resolved(path),
            Err(error) => PathPlan::Failed(error),
        }
    } else {
        split_path(target)
    }
}

/// What has to happen to `target`. The home directory is looked up only for
/// a path that starts with `~`; whatever the lookup gives, the plan is that
/// of `plan_path` for it.
pub fn clean_path(target: &str) -> (plan: PathPlan)
    ensures
        !starts_at_home(target@) ==> plan@ == split(target@),
        starts_at_home(target@) ==> {
            ||| plan@ == PathPlanView::Failed(PathError::HomeDirUnavailable)
            ||| exists|home: Seq<char>| plan@ == PathPlanView::Resolved(home + target@.skip(1))
        },
{
    if begins_at_home(target) {
        let home = home_dir();
        match home {
            Some(home) => {
                let plan = plan_path(target, Some(home.as_str()));
                assert(plan@ == PathPlanView::Resolved(home@ + target@.skip(1)));
                plan
            },
            None => plan_path(target, None),
        }
    } else {
        split_path(target)
    }
}

/// Puts `name` behind `parent`.
pub fn join(parent: &str, name: &str) -> (path: String)
    ensures
        path@ == joined(parent@, name@),
{
    if name.unicode_len() > 0 && name.get_char(0) == '/' {
        return String::from_str(name);
    }
    let length = parent.unicode_len();
    let mut path = String::from_str(parent);
    if length > 0 && parent.get_char(length - 1) != '/' {
        proof {
            reveal_strlit("/");
        }
        path.append("/");
        assert(path@ =~= parent@ + seq!['/']);
    }
    path.append(name);
    path
}

/// Ends the resolution of a path that had to be split: puts the file's name
/// behind the canonical parent directory.
pub fn finish_path(canonical_parent: Option<&str>, file_name: &str) -> (path: Result<
    String,
    PathError,
>)
    ensures
        match path {
            Ok(text) => finished(canonical_parent.deep_view(), file_name@) == Ok::<
                Seq<char>,
                PathError,
            >(text@),
            Err(error) => finished(canonical_parent.deep_view(), file_name@) == Err::<
                Seq<char>,
                PathError,
            >(error),
        },
{
    match canonical_parent {
        Some(parent) => Ok(join(parent, file_name)),
        None => Err(PathError::ParentNotFound),
    }
}

} // verus!
