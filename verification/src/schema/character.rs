//! A character: a unit of source with its build and run configuration.

use vstd::prelude::*;

verus! {

/// The description of a character in its manifest.
#[derive(Clone, Debug, Default, PartialEq, Eq)]
pub struct Character {
    pub name: String,
    pub version: Option<String>,
    pub authors: Option<Vec<String>>,
    pub description: Option<String>,
    pub readme: Option<String>,
    pub homepage: Option<String>,
    pub repository: String,
    pub license: Option<String>,
    pub license_file: Option<String>,
    pub keywords: Option<Vec<String>>,
    pub categories: Option<Vec<String>>,
    pub exclude: Option<Vec<String>>,
    /// The paths that are packaged, where not all are.
    pub included: Option<Vec<String>>,
    pub publish: Option<Vec<String>>,
}

impl Character {
    /// The text a character displays as: its name, a space, its repository.
    pub open spec fn display(self) -> Seq<char> {
        self.name@ + seq![' '] + self.repository@
    }

    /// The text a character displays as.
    pub fn to_string(&self) -> (text: String)
        ensures
            text@ == self.display(),
    {
        proof {
            reveal_strlit(" ");
            assert(" "@ =~= seq![' ']);
        }
        self.name.clone().concat(" ").concat(self.repository.as_str())
    }
}

} // verus!
