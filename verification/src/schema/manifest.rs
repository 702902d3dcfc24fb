//! The manifest file of a character.

use vstd::prelude::*;
use crate::schema::character::Character;

verus! {

/// What a manifest file holds.
#[derive(Clone, Debug, Default, PartialEq, Eq)]
pub struct Manifest {
    pub character: Character,
}

/// A manifest that names the members of a workspace and describes no
/// character of its own.
#[derive(Clone, Debug, Default, PartialEq, Eq)]
pub struct VirtualManifest {
    pub members: Vec<String>,
}

} // verus!
