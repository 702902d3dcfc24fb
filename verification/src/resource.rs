//! The resources of the remote service that the operations read and build.

use vstd::prelude::*;
use crate::schema::character::Character;

verus! {

/// A reference to a git repository.
#[derive(Clone, Debug, PartialEq, Eq)]
pub struct GitReference {
    pub repo: String,
}

/// A reference to a character in a registry.
#[derive(Clone, Debug, PartialEq, Eq)]
pub struct RegistryReference {
    pub name: String,
    pub registry: String,
    pub version: String,
}

/// The descriptive part of a character.
#[derive(Clone, Debug, PartialEq, Eq)]
pub struct Metadata {
    pub name: String,
    pub repository: String,
}

/// A character as the remote service runs it.
#[derive(Clone, Debug, PartialEq, Eq)]
pub struct CharacterSpec {
    pub meta: Metadata,
    /// Whether the sources are synchronized from the local workspace.
    pub live: bool,
    /// Whether the character is built and run once.
    pub once: bool,
}

impl CharacterSpec {
    /// The character that a manifest describes: neither live nor run once.
    pub fn from(manifest: &Character) -> (character: CharacterSpec)
        ensures
            character.meta.name == manifest.name,
            character.meta.repository == manifest.repository,
            !character.live,
            !character.once,
    {
        CharacterSpec {
            meta: Metadata { name: manifest.name.clone(), repository: manifest.repository.clone() },
            live: false,
            once: false,
        }
    }
}

/// A running instance of a character.
#[derive(Clone, Debug, PartialEq, Eq)]
pub struct ActorSpec {
    pub name: String,
}

/// Where the lead character of a playbook comes from.
#[derive(Clone, Debug, PartialEq, Eq)]
pub struct Preface {
    pub name: Option<String>,
    pub repository: Option<GitReference>,
    pub registry: Option<RegistryReference>,
    pub manifest: Option<CharacterSpec>,
}

impl Preface {
    /// The preface of a playbook whose lead lives in a git repository.
    pub fn repository(repo: &str) -> (preface: Preface)
        ensures
            preface.name is None,
            preface.repository matches Some(reference) && reference.repo@ == repo@,
            preface.registry is None,
            preface.manifest is None,
    {
        Preface {
            name: None,
            repository: Some(GitReference { repo: String::from_str(repo) }),
            registry: None,
            manifest: None,
        }
    }

    /// The preface of a playbook whose lead is published in a registry.
    pub fn registry(name: &str, registry: &str, version: &str) -> (preface: Preface)
        ensures
            preface.name matches Some(lead) && lead@ == name@,
            preface.repository is None,
            preface.registry matches Some(reference) && reference.name@ == name@ && reference.registry@
                == registry@ && reference.version@ == version@,
            preface.manifest is None,
    {
        Preface {
            name: Some(String::from_str(name)),
            repository: None,
            registry: Some(
                RegistryReference {
                    name: String::from_str(name),
                    registry: String::from_str(registry),
                    version: String::from_str(version),
                },
            ),
            manifest: None,
        }
    }

    /// The preface of a playbook whose lead is described by a local manifest.
    pub fn manifest(character: CharacterSpec) -> (preface: Preface)
        ensures
            preface.name matches Some(lead) && lead@ == character.meta.name@,
            preface.repository is None,
            preface.registry is None,
            preface.manifest == Some(character),
    {
        Preface {
            name: Some(character.meta.name.clone()),
            repository: None,
            registry: None,
            manifest: Some(character),
        }
    }
}

/// A playbook as the remote service records it.
#[derive(Clone, Debug, PartialEq, Eq)]
pub struct PlaybookSpec {
    pub id: String,
    pub title: String,
    pub description: Option<String>,
    pub preface: Preface,
    pub characters: Option<Vec<CharacterSpec>>,
}

} // verus!
