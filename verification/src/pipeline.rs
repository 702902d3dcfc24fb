//! The pipeline behind `dev` and `run`: what a playbook is created from,
//! who leads it, and which steps a session takes.

use vstd::prelude::*;
use crate::client::errors::ClientError;
use crate::client::playbooks::PlaybookPayload;
use crate::errors::Errors;
use crate::resource::{CharacterSpec, PlaybookSpec, Preface};
use crate::schema::character::Character;
use crate::text::same;

verus! {

/// The options for the pipeline.
#[derive(Clone, Copy, Debug, PartialEq, Eq, Structural)]
pub struct Options {
    /// Delete deployments after dev or debug mode is interrupted.
    pub cleanup: bool,
    /// Stream logs from deployed objects.
    pub tail: bool,
    /// Whether the sources are synchronized from the local workspace.
    pub live: bool,
    /// Exit after one synchronization.
    pub once: bool,
}

/// Whether `payload` is an untitled playbook without a description whose
/// lead comes from `preface`.
pub open spec fn untitled(payload: PlaybookPayload, preface: Preface) -> bool {
    &&& payload.title@ == "Untitled"@
    &&& payload.description@ == ""@
    &&& payload.preface == preface
}

fn payload_of(preface: Preface) -> (payload: PlaybookPayload)
    ensures
        untitled(payload, preface),
{
    PlaybookPayload { title: String::from_str("Untitled"), description: String::from_str(""), preface }
}

/// What a playbook is created from, where its lead lives in a remote git
/// repository.
pub fn pull(repository: &str) -> (payload: PlaybookPayload)
    ensures
        payload.title@ == "Untitled"@,
        payload.description@ == ""@,
        payload.preface.name is None,
        payload.preface.repository matches Some(reference) && reference.repo@ == repository@,
        payload.preface.registry is None,
        payload.preface.manifest is None,
{
    payload_of(Preface::repository(repository))
}

/// What a playbook is created from, where its lead is published in the
/// registry: the latest version in the hub.
pub fn fetch(name: &str) -> (payload: PlaybookPayload)
    ensures
        payload.title@ == "Untitled"@,
        payload.description@ == ""@,
        payload.preface.name matches Some(lead) && lead@ == name@,
        payload.preface.repository is None,
        payload.preface.registry matches Some(reference) && reference.name@ == name@ && reference.registry@
            == "hub"@ && reference.version@ == "latest"@,
        payload.preface.manifest is None,
{
    payload_of(Preface::registry(name, "hub", "latest"))
}

/// What a playbook is created from, where its lead is described by the
/// local manifest: the character of the manifest, live.
pub fn load(manifest: &Character, once: bool) -> (payload: PlaybookPayload)
    ensures
        payload.title@ == "Untitled"@,
        payload.description@ == ""@,
        payload.preface.name matches Some(lead) && lead@ == manifest.name@,
        payload.preface.repository is None,
        payload.preface.registry is None,
        payload.preface.manifest matches Some(character) && character.live && character.once == once
            && character.meta.name == manifest.name && character.meta.repository == manifest.repository,
{
    let described = CharacterSpec::from(manifest);
    let character = CharacterSpec { meta: described.meta, live: true, once };
    payload_of(Preface::manifest(character))
}

/// Reads the answer to the creation of a playbook.
pub fn create(answer: Result<PlaybookSpec, ClientError>) -> (res: Result<PlaybookSpec, Errors>)
    ensures
        match answer {
            Ok(playbook) => res == Ok::<PlaybookSpec, Errors>(playbook),
            Err(error) => res == Err::<PlaybookSpec, Errors>(Errors::FailedCreatePlaybook(error)),
        },
{
    match answer {
        Ok(playbook) => Ok(playbook),
        Err(error) => Err(Errors::FailedCreatePlaybook(error)),
    }
}

/// One step of a session.
#[derive(Clone, Copy, Debug, PartialEq, Eq, Structural)]
pub enum Step {
    /// Wait this many seconds for the playbook to be resolved.
    Wait(u64),
    /// Ask the remote service for the playbook and find its lead.
    Resolve,
    /// Synchronize the full sources into the server.
    Upload,
    /// Watch the workspace and synchronize what changes.
    Watch,
    /// Receive the log stream from the server.
    Tail,
    /// Delete the playbook.
    Cleanup,
}

impl Step {
    /// Whether a failure of the step ends the session. A session that cannot
    /// find its playbook or cannot hand over its sources has nothing to go on
    /// with; a watcher, a log stream or a cleanup that fails is logged, and
    /// the steps after it are still taken.
    pub open spec fn fatal(self) -> bool {
        self is Resolve || self is Upload
    }

    /// Executable form of [`Step::fatal`].
    pub fn is_fatal(&self) -> (fatal: bool)
        ensures
            fatal == self.fatal(),
    {
        match self {
            Step::Resolve | Step::Upload => true,
            _ => false,
        }
    }
}

/// The steps of a session with these options, in order.
pub open spec fn steps(options: Options) -> Seq<Step> {
    seq![Step::Wait(10), Step::Resolve] + (if options.live {
        seq![Step::Upload]
    } else {
        Seq::empty()
    }) + (if !options.once {
        seq![Step::Watch]
    } else {
        Seq::empty()
    }) + (if options.tail {
        seq![Step::Tail]
    } else {
        Seq::empty()
    }) + (if options.cleanup {
        seq![Step::Cleanup]
    } else {
        Seq::empty()
    })
}

/// Plans a session: wait for the playbook to be resolved, look it up, and
/// then synchronize, watch, tail and clean up as the options say.
pub fn run(options: Options) -> (plan: Vec<Step>)
    ensures
        plan@ == steps(options),
{
    let mut plan: Vec<Step> = Vec::new();
    plan.push(Step::Wait(10));
    plan.push(Step::Resolve);
    if options.live {
        plan.push(Step::Upload);
    }
    if !options.once {
        plan.push(Step::Watch);
    }
    if options.tail {
        plan.push(Step::Tail);
    }
    if options.cleanup {
        plan.push(Step::Cleanup);
    }
    assert(plan@ =~= steps(options));
    plan
}

/// The name of the first character that lives in the repository.
pub open spec fn first_from(characters: Seq<CharacterSpec>, repo: Seq<char>) -> Option<String>
    decreases characters.len(),
{
    if characters.len() == 0 {
        None
    } else if characters[0].meta.repository@ == repo {
        Some(characters[0].meta.name)
    } else {
        first_from(characters.drop_first(), repo)
    }
}

/// The name of the lead character of a playbook. A playbook from the
/// registry or from a manifest names its lead in the preface; the lead of a
/// playbook from a repository is its first character that lives there.
pub open spec fn lead_of(playbook: PlaybookSpec) -> Option<String> {
    if playbook.preface.registry is Some || playbook.preface.manifest is Some {
        playbook.preface.name
    } else {
        match (playbook.preface.repository, playbook.characters) {
            (Some(reference), Some(characters)) => first_from(characters@, reference.repo@),
            _ => None,
        }
    }
}

/// The name of the lead character, based on the kind of preface.
pub fn lead_name(playbook: &PlaybookSpec) -> (name: Option<String>)
    ensures
        name == lead_of(*playbook),
{
    if playbook.preface.registry.is_some() || playbook.preface.manifest.is_some() {
        return match &playbook.preface.name {
            Some(name) => Some(name.clone()),
            None => None,
        };
    }
    if let Some(repo) = &playbook.preface.repository {
        if let Some(characters) = &playbook.characters {
            return first_character(characters, repo.repo.as_str());
        }
    }
    None
}

fn first_character(characters: &Vec<CharacterSpec>, repo: &str) -> (name: Option<String>)
    ensures
        name == first_from(characters@, repo@),
{
    let mut i: usize = 0;
    assert(characters@.skip(0) =~= characters@);
    while i < characters.len()
        invariant
            0 <= i <= characters.len(),
            first_from(characters@, repo@) == first_from(characters@.skip(i as int), repo@),
        decreases characters.len() - i,
    {
        proof {
            assert(characters@.skip(i as int).drop_first() =~= characters@.skip(i + 1));
            assert(characters@.skip(i as int)[0] == characters@[i as int]);
        }
        if same(characters[i].meta.repository.as_str(), repo) {
            return Some(characters[i].meta.name.clone());
        }
        i += 1;
    }
    None
}

/// The name of the lead character, or the failure of a playbook without
/// one.
pub fn lead(playbook: &PlaybookSpec) -> (res: Result<String, Errors>)
    ensures
        match lead_of(*playbook) {
            Some(name) => res == Ok::<String, Errors>(name),
            None => res == Err::<String, Errors>(Errors::InvalidCharacter),
        },
{
    match lead_name(playbook) {
        Some(name) => Ok(name),
        None => Err(Errors::InvalidCharacter),
    }
}

} // verus!
