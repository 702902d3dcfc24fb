//! The search for a manifest: from a directory upwards, one look at the
//! disk at a time.

use vstd::prelude::*;
use crate::filesystem::errors::{Error, IoError, IoErrorKind};
use crate::paths::{join, parent, path_join, path_parent};

verus! {

/// Looks for a file of a given name in a directory and in every directory
/// above it.
pub struct Finder<'a> {
    filename: &'a str,
}

/// What the disk says of a candidate path.
#[derive(Clone, Debug, PartialEq, Eq)]
pub enum Probe {
    /// A file stands at the path.
    File,
    /// Something stands at the path that is no file.
    NotAFile,
    /// The disk could not be asked.
    Failed(IoError),
}

/// The outcome of one step of the search.
#[derive(Clone, Debug, PartialEq, Eq)]
pub enum Search {
    /// The file stands at this path.
    Found(String),
    /// Nothing here: look in this directory next.
    Ascend(String),
    /// The search is over without a file.
    Failed(Error),
}

impl<'a> Finder<'a> {
    /// The name that is looked for.
    pub closed spec fn name(&self) -> Seq<char> {
        self.filename@
    }

    /// A finder of the manifest `.amp.toml`.
    pub fn new() -> (finder: Self)
        ensures
            finder.name() == ".amp.toml"@,
    {
        Finder { filename: ".amp.toml" }
    }

    /// Looks for `filename` instead.
    pub fn filename(self, filename: &'a str) -> (finder: Self)
        ensures
            finder.name() == filename@,
    {
        Finder { filename }
    }

    /// The path at which the file would stand in `directory`.
    pub fn candidate(&self, directory: &str) -> (path: String)
        ensures
            path@ == path_join(directory@, self.name()),
    {
        join(directory, self.filename)
    }

    /// One step of the search in `directory`, given what the disk says of
    /// the candidate there.
    pub fn find(&self, directory: &str, probe: Probe) -> (step: Search)
        ensures
            searches(directory@, self.name(), probe, step),
    {
        find(directory, self.filename, probe)
    }
}

/// Whether the probe sends the search on to the directory above: nothing
/// stands at the candidate path, or something that is no file.
pub open spec fn passes(probe: Probe) -> bool {
    match probe {
        Probe::File => false,
        Probe::NotAFile => true,
        Probe::Failed(error) => error.kind == IoErrorKind::NotFound,
    }
}

/// Whether `step` is the step that the search takes in `directory`.
pub open spec fn searches(directory: Seq<char>, filename: Seq<char>, probe: Probe, step: Search) -> bool {
    match probe {
        Probe::File => step matches Search::Found(path) && path@ == path_join(directory, filename),
        Probe::Failed(error) if error.kind != IoErrorKind::NotFound => step == Search::Failed(Error::Io(error)),
        _ => match path_parent(directory) {
            Some(above) => step matches Search::Ascend(next) && next@ == above,
            None => step matches Search::Failed(Error::Io(error)) && error.kind == IoErrorKind::NotFound
                && error.message@ == "path not found"@,
        },
    }
}

/// One step of the search for `filename` in `directory`, given what the disk
/// says of the candidate there. A file ends the search; a failure other than
/// "not found" ends it too; anything else sends it to the directory above,
/// and at the top the file is not found.
pub fn find(directory: &str, filename: &str, probe: Probe) -> (step: Search)
    ensures
        searches(directory@, filename@, probe, step),
{
    match probe {
        Probe::File => {
            return Search::Found(join(directory, filename));
        },
        Probe::NotAFile => {},
        Probe::Failed(error) => {
            if error.kind != IoErrorKind::NotFound {
                return Search::Failed(Error::Io(error));
            }
        },
    }
    ascend(parent(directory))
}

/// Sends the search on to the directory above, or ends it where there is
/// none: the file is not found.
pub fn ascend(above: Option<String>) -> (step: Search)
    ensures
        match above {
            Some(directory) => step == Search::Ascend(directory),
            None => step matches Search::Failed(Error::Io(error)) && error.kind == IoErrorKind::NotFound
                && error.message@ == "path not found"@,
        },
{
    match above {
        Some(directory) => Search::Ascend(directory),
        None => Search::Failed(
            Error::Io(IoError { kind: IoErrorKind::NotFound, message: String::from_str("path not found") }),
        ),
    }
}

} // verus!
