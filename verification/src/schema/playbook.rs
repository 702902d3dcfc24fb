//! A playbook as a manifest describes it.

use vstd::prelude::*;
use crate::schema::character::Character;

verus! {

/// A lead character with a title and a description.
#[derive(Clone, Debug, Default, PartialEq, Eq)]
pub struct Playbook {
    pub id: u64,
    pub title: String,
    pub description: String,
    pub lead: Character,
}

impl Playbook {
    /// The text a playbook displays as.
    pub open spec fn display(self) -> Seq<char> {
        "Playbook ("@ + self.title@ + ", "@ + self.description@ + ")"@
    }

    /// The text a playbook displays as: its title and its description.
    pub fn to_string(&self) -> (text: String)
        ensures
            text@ == self.display(),
    {
        String::from_str("Playbook (").concat(self.title.as_str()).concat(", ").concat(
            self.description.as_str(),
        ).concat(")")
    }
}

} // verus!
