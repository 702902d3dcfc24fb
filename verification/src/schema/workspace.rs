//! A workspace: the characters found around the manifest that a command was
//! invoked for.

use vstd::prelude::*;
use vstd::hash_map::StringHashMap;
use crate::errors::Errors;
use crate::paths::{parent, path_parent};
use crate::schema::character::Character;
use crate::schema::manifest::VirtualManifest;

verus! {

/// What a manifest of the workspace describes.
#[derive(Debug)]
pub enum MaybeCharacter {
    Character(Character),
    Virtual(VirtualManifest),
}

/// The characters of a workspace, each under the directory of its manifest.
struct Characters {
    characters: StringHashMap<MaybeCharacter>,
}

impl Characters {
    /// Whether the directory of the manifest is known.
    spec fn holds(&self, manifest_path: Seq<char>) -> bool {
        path_parent(manifest_path) matches Some(directory) && self.characters@.contains_key(directory)
    }

    /// What is known under the directory of the manifest.
    spec fn at(&self, manifest_path: Seq<char>) -> MaybeCharacter {
        self.characters@[path_parent(manifest_path)->Some_0]
    }

    fn get(&self, manifest_path: &str) -> (found: &MaybeCharacter)
        requires
            self.holds(manifest_path@),
        ensures
            *found == self.at(manifest_path@),
    {
        self.maybe_get(manifest_path).unwrap()
    }

    fn maybe_get(&self, manifest_path: &str) -> (found: Option<&MaybeCharacter>)
        requires
            path_parent(manifest_path@) is Some,
        ensures
            found is Some <==> self.holds(manifest_path@),
            found matches Some(known) ==> *known == self.at(manifest_path@),
    {
        let directory = parent(manifest_path).unwrap();
        self.characters.get(directory.as_str())
    }

    /// Looks the manifest up without asking anything of it.
    fn lookup(&self, manifest_path: &str) -> (found: Option<&MaybeCharacter>)
        ensures
            found is Some <==> self.holds(manifest_path@),
            found matches Some(known) ==> *known == self.at(manifest_path@),
    {
        match parent(manifest_path) {
            Some(directory) => self.characters.get(directory.as_str()),
            None => None,
        }
    }
}

/// The characters around one manifest.
pub struct Workspace {
    // The manifest that the command was invoked for: the "main character".
    current_manifest: String,
    // The characters found in this workspace.
    characters: Characters,
    // The root manifest of a workspace of several characters, if there is one.
    root_manifest: Option<String>,
    // The manifests of the members of this workspace.
    members: Vec<String>,
}

impl Workspace {
    /// The path of the manifest that the command was invoked for.
    pub closed spec fn current_path(&self) -> Seq<char> {
        self.current_manifest@
    }

    /// The path of the manifest at the root of the workspace, where the
    /// workspace has one of its own.
    pub closed spec fn declared_root(&self) -> Option<Seq<char>> {
        match self.root_manifest {
            Some(path) => Some(path@),
            None => None,
        }
    }

    /// The paths of the manifests of the members, in order.
    pub closed spec fn member_paths(&self) -> Seq<Seq<char>> {
        Seq::new(self.members@.len(), |i: int| self.members@[i]@)
    }

    /// Whether the directory of the manifest at `path` is known.
    pub closed spec fn knows(&self, path: Seq<char>) -> bool {
        self.characters.holds(path)
    }

    /// What the manifest at `path` describes.
    pub closed spec fn described(&self, path: Seq<char>) -> MaybeCharacter {
        self.characters.at(path)
    }

    /// The path of the manifest at the root of the workspace.
    pub open spec fn root_path(&self) -> Seq<char> {
        match self.declared_root() {
            Some(path) => path,
            None => self.current_path(),
        }
    }

    /// Whether every member is known.
    pub open spec fn knows_members(&self) -> bool {
        forall|i: int| 0 <= i < self.member_paths().len() ==> self.knows(#[trigger] self.member_paths()[i])
    }

    /// The characters among the first `n` members, in order.
    pub open spec fn member_characters(&self, n: int) -> Seq<Character>
        decreases n,
    {
        if n <= 0 {
            Seq::empty()
        } else {
            match self.described(self.member_paths()[n - 1]) {
                MaybeCharacter::Character(character) => self.member_characters(n - 1).push(character),
                MaybeCharacter::Virtual(_) => self.member_characters(n - 1),
            }
        }
    }

    /// Creates a workspace: without a manifest, a root or members.
    pub fn new() -> (res: Result<Workspace, Errors>)
        ensures
            res matches Ok(ws) && ws.current_path().len() == 0 && ws.declared_root() is None
                && ws.member_paths().len() == 0 && forall|path: Seq<char>| !ws.knows(path),
    {
        let ws = Workspace::default();
        Ok(ws)
    }

    fn default() -> (ws: Workspace)
        ensures
            ws.current_path().len() == 0,
            ws.declared_root() is None,
            ws.member_paths().len() == 0,
            forall|path: Seq<char>| !ws.knows(path),
    {
        Workspace {
            current_manifest: String::new(),
            characters: Characters { characters: StringHashMap::new() },
            root_manifest: None,
            members: Vec::new(),
        }
    }

    /// The current character of this workspace. Fails where the current
    /// manifest is a virtual one.
    pub fn current(&self) -> (res: Result<&Character, Errors>)
        requires
            self.knows(self.current_path()),
        ensures
            match self.described(self.current_path()) {
                MaybeCharacter::Character(character) => res == Ok::<&Character, Errors>(&character),
                MaybeCharacter::Virtual(_) => res matches Err(Errors::VirtualManifest(path)) && path@
                    == self.current_path(),
            },
    {
        match self.current_opt() {
            Some(character) => Ok(character),
            None => Err(Errors::VirtualManifest(self.current_manifest.clone())),
        }
    }

    /// The current character of this workspace, unless the current manifest
    /// is a virtual one.
    pub fn current_opt(&self) -> (res: Option<&Character>)
        requires
            self.knows(self.current_path()),
        ensures
            match self.described(self.current_path()) {
                MaybeCharacter::Character(character) => res == Some(&character),
                MaybeCharacter::Virtual(_) => res is None,
            },
    {
        match self.characters.get(self.current_manifest.as_str()) {
            MaybeCharacter::Character(p) => Some(p),
            MaybeCharacter::Virtual(_) => None,
        }
    }

    /// The current character, where the workspace knows its current manifest:
    /// `None` where it does not.
    pub fn try_current(&self) -> (res: Option<Result<&Character, Errors>>)
        ensures
            res is Some <==> self.knows(self.current_path()),
            res matches Some(Ok(character)) ==> self.described(self.current_path())
                == MaybeCharacter::Character(*character),
            res matches Some(Err(_)) ==> self.described(self.current_path()) is Virtual,
    {
        match self.characters.lookup(self.current_manifest.as_str()) {
            Some(_) => Some(self.current()),
            None => None,
        }
    }

    /// The directory that holds the root manifest of this workspace.
    pub fn root(&self) -> (directory: String)
        requires
            path_parent(self.root_path()) is Some,
        ensures
            Some(directory@) == path_parent(self.root_path()),
    {
        parent(self.root_manifest()).unwrap()
    }

    /// The directory that holds the root manifest, where the root manifest
    /// lies in one: `None` where its path has no parent.
    pub fn try_root(&self) -> (directory: Option<String>)
        ensures
            directory is Some <==> path_parent(self.root_path()) is Some,
            directory matches Some(found) ==> Some(found@) == path_parent(self.root_path()),
    {
        match parent(self.root_manifest()) {
            Some(_) => Some(self.root()),
            None => None,
        }
    }

    /// The path of the manifest at the root of this workspace: the declared
    /// root, or the current manifest where none is declared.
    pub fn root_manifest(&self) -> (path: &str)
        ensures
            path@ == self.root_path(),
    {
        match &self.root_manifest {
            Some(path) => path.as_str(),
            None => self.current_manifest.as_str(),
        }
    }

    /// The characters of the members of this workspace, in the order of the
    /// members. A member with a virtual manifest is left out.
    pub fn members(&self) -> (res: Vec<&Character>)
        requires
            self.knows_members(),
        ensures
            res@.len() == self.member_characters(self.member_paths().len() as int).len(),
            forall|i: int|
                0 <= i < res@.len() ==> *(#[trigger] res@[i]) == self.member_characters(
                    self.member_paths().len() as int,
                )[i],
    {
        let mut found: Vec<&Character> = Vec::new();
        let mut i: usize = 0;
        while i < self.members.len()
            invariant
                0 <= i <= self.members.len(),
                self.knows_members(),
                found@.len() == self.member_characters(i as int).len(),
                forall|j: int| 0 <= j < found@.len() ==> *(#[trigger] found@[j]) == self.member_characters(i as int)[j],
            decreases self.members.len() - i,
        {
            assert(self.knows(self.member_paths()[i as int]));
            match self.characters.get(self.members[i].as_str()) {
                MaybeCharacter::Character(p) => {
                    found.push(p);
                },
                MaybeCharacter::Virtual(_) => {},
            }
            i += 1;
        }
        found
    }

    /// The characters of the members, where the workspace knows every
    /// member: `None` where it does not.
    pub fn try_members(&self) -> (res: Option<Vec<&Character>>)
        ensures
            res is Some <==> self.knows_members(),
            res matches Some(found) ==> found@.len() == self.member_characters(
                self.member_paths().len() as int,
            ).len() && forall|i: int|
                0 <= i < found@.len() ==> *(#[trigger] found@[i]) == self.member_characters(
                    self.member_paths().len() as int,
                )[i],
    {
        let mut i: usize = 0;
        while i < self.members.len()
            invariant
                0 <= i <= self.members.len(),
                forall|j: int| 0 <= j < i ==> self.knows(#[trigger] self.member_paths()[j]),
            decreases self.members.len() - i,
        {
            match self.characters.lookup(self.members[i].as_str()) {
                Some(_) => {},
                None => {
                    assert(!self.knows(self.member_paths()[i as int]));
                    return None;
                },
            }
            i += 1;
        }
        Some(self.members())
    }
}

} // verus!
