//! The vocabulary of synchronization: raw filesystem event kinds, the closed
//! set of intents the remote side understands, and the classifier between them.

use vstd::prelude::*;

verus! {

/// What was created, as the filesystem watcher reports it.
#[derive(Clone, Copy, Debug, PartialEq, Eq, Structural)]
pub enum CreateKind {
    Any,
    File,
    Folder,
    Other,
}

/// What was modified, as the filesystem watcher reports it.
#[derive(Clone, Copy, Debug, PartialEq, Eq, Structural)]
pub enum ModifyKind {
    Any,
    /// The content of a file changed.
    Data,
    /// Only metadata (permissions, times) changed.
    Metadata,
    /// The name changed: a rename or a move.
    Name,
    Other,
}

/// What was removed, as the filesystem watcher reports it.
#[derive(Clone, Copy, Debug, PartialEq, Eq, Structural)]
pub enum RemoveKind {
    Any,
    File,
    Folder,
    Other,
}

/// The kind of a raw filesystem event.
#[derive(Clone, Copy, Debug, PartialEq, Eq, Structural)]
pub enum RawKind {
    Any,
    Access,
    Create(CreateKind),
    Modify(ModifyKind),
    Remove(RemoveKind),
    Other,
}

/// The synchronization intents understood by the remote side.
#[derive(Clone, Copy, Debug, PartialEq, Eq, Structural)]
pub enum EventKinds {
    Overwrite,
    Create,
    Modify,
    Remove,
    Rename,
    Other,
}

impl EventKinds {
    /// Whether the intent can be propagated. `Rename` and `Other` are
    /// recognized but never sent.
    pub open spec fn supported(self) -> bool {
        self != EventKinds::Rename && self != EventKinds::Other
    }

    /// Whether a request of this intent carries file bytes.
    pub open spec fn carries_payload(self) -> bool {
        self == EventKinds::Overwrite || self == EventKinds::Modify
    }

    /// Executable form of [`EventKinds::supported`].
    pub fn is_supported(&self) -> (b: bool)
        ensures
            b == self.supported(),
    {
        match self {
            EventKinds::Rename | EventKinds::Other => false,
            _ => true,
        }
    }

    /// Executable form of [`EventKinds::carries_payload`].
    pub fn has_payload(&self) -> (b: bool)
        ensures
            b == self.carries_payload(),
    {
        match self {
            EventKinds::Overwrite | EventKinds::Modify => true,
            _ => false,
        }
    }
}

/// The intent a raw event kind stands for.
pub open spec fn intent_of(kind: RawKind) -> EventKinds {
    match kind {
        RawKind::Create(CreateKind::File) | RawKind::Create(CreateKind::Folder) => EventKinds::Create,
        RawKind::Modify(ModifyKind::Data) => EventKinds::Modify,
        RawKind::Modify(ModifyKind::Name) => EventKinds::Rename,
        RawKind::Remove(RemoveKind::File) | RawKind::Remove(RemoveKind::Folder) => EventKinds::Remove,
        _ => EventKinds::Other,
    }
}

/// Maps a raw filesystem event kind to a synchronization intent.
pub fn classify(kind: RawKind) -> (intent: EventKinds)
    ensures
        intent == intent_of(kind),
        intent != EventKinds::Overwrite,
{
    match kind {
        RawKind::Create(CreateKind::File) => EventKinds::Create,
        RawKind::Create(CreateKind::Folder) => EventKinds::Create,
        RawKind::Modify(ModifyKind::Data) => EventKinds::Modify,
        RawKind::Modify(ModifyKind::Name) => EventKinds::Rename,
        RawKind::Remove(RemoveKind::File) => EventKinds::Remove,
        RawKind::Remove(RemoveKind::Folder) => EventKinds::Remove,
        _ => EventKinds::Other,
    }
}

/// A path relative to the workspace root, tagged with what it names.
#[derive(Clone, Debug, PartialEq, Eq)]
pub enum Path {
    File(String),
    Directory(String),
}

impl Path {
    /// The relative path, without its tag.
    pub open spec fn name(self) -> Seq<char> {
        match self {
            Path::File(name) => name@,
            Path::Directory(name) => name@,
        }
    }
}

/// What is sent to the synchronization endpoint of a remote actor.
#[derive(Clone, Debug, PartialEq, Eq)]
pub struct Synchronization {
    pub kind: EventKinds,
    pub paths: Vec<Path>,
    pub attributes: Option<Vec<(String, String)>>,
    pub payload: Option<Vec<u8>>,
}

impl Synchronization {
    /// Whether the request replaces the remote sources with the archive
    /// `bytes`: a full overwrite that lists no paths.
    pub open spec fn replaces_with(self, bytes: Seq<u8>) -> bool {
        &&& self.kind == EventKinds::Overwrite
        &&& self.paths@.len() == 0
        &&& self.attributes is None
        &&& self.payload matches Some(payload) && payload@ == bytes
    }

    /// A request carries file bytes exactly when its intent needs them.
    pub open spec fn well_formed(self) -> bool {
        self.payload is Some <==> self.kind.carries_payload()
    }
}

/// A path named by a raw event, with what the filesystem says of it now.
#[derive(Clone, Debug, PartialEq, Eq)]
pub struct ChangedPath {
    /// The absolute path.
    pub path: String,
    /// Whether a directory stands at the path at this moment. Nothing stands
    /// there after a removal, so the flag is not read for one.
    pub is_dir: bool,
}

/// An occurrence reported by the filesystem watcher.
#[derive(Clone, Debug, PartialEq, Eq)]
pub struct Event {
    pub kind: RawKind,
    pub paths: Vec<ChangedPath>,
}

} // verus!
