//! The context of a command: the cluster in use, the client for it and the
//! session that the command builds up.

use vstd::prelude::*;
use crate::client::client::Client;
use crate::config::{Cluster, Configuration};
use crate::errors::Errors;
use crate::paths::{parent, path_parent};
use crate::resource::{ActorSpec, PlaybookSpec};
use crate::schema::character::Character;

verus! {

/// What a command has found and created so far.
#[derive(Debug)]
pub struct Session {
    pub workspace: Option<String>,
    pub character: Option<Character>,
    pub playbook: Option<PlaybookSpec>,
    pub actor: Option<ActorSpec>,
}

/// Whether `after` is the session `before` once the character loaded from
/// the manifest at `path` is taken, with `outcome` as the result.
pub open spec fn loads(
    before: Session,
    after: Session,
    path: Seq<char>,
    loaded: Result<Character, String>,
    outcome: Result<(), Errors>,
) -> bool {
    &&& after.playbook == before.playbook
    &&& after.actor == before.actor
    &&& match loaded {
        Ok(character) => {
            &&& outcome is Ok
            &&& after.character == Some(character)
            &&& after.workspace matches Some(directory) && Some(directory@) == path_parent(path)
        },
        Err(reason) => {
            &&& outcome == Err::<(), Errors>(Errors::FailedLoadManifest(reason))
            &&& after.character == before.character
            &&& after.workspace == before.workspace
        },
    }
}

impl Session {
    /// A session in which nothing is known yet.
    pub fn new() -> (session: Session)
        ensures
            session.workspace is None,
            session.character is None,
            session.playbook is None,
            session.actor is None,
    {
        Session { workspace: None, character: None, playbook: None, actor: None }
    }

    /// Takes the character that was loaded from the manifest at `path`: the
    /// directory of the manifest becomes the workspace. A manifest that
    /// could not be loaded leaves the session as it is.
    pub fn load(&mut self, path: &str, loaded: Result<Character, String>) -> (res: Result<(), Errors>)
        requires
            path_parent(path@) is Some,
        ensures
            loads(*old(self), *final(self), path@, loaded, res),
    {
        let workspace = parent(path).unwrap();
        let character = match loaded {
            Ok(character) => character,
            Err(reason) => {
                return Err(Errors::FailedLoadManifest(reason));
            },
        };
        self.workspace = Some(workspace);
        self.character = Some(character);
        Ok(())
    }

    /// Takes the loaded character where the manifest lies in a directory:
    /// `None`, and the session as it was, where its path has no parent.
    pub fn try_load(&mut self, path: &str, loaded: Result<Character, String>) -> (res: Option<Result<(), Errors>>)
        ensures
            res is Some <==> path_parent(path@) is Some,
            res is None ==> *final(self) == *old(self),
            res matches Some(outcome) ==> loads(*old(self), *final(self), path@, loaded, outcome),
    {
        match parent(path) {
            Some(_) => Some(self.load(path, loaded)),
            None => None,
        }
    }
}

/// What a command works with.
pub struct Context {
    pub configuration: Configuration,
    pub cluster: Cluster,
    pub session: Session,
    pub client: Client,
}

/// The address of the API of a cluster: that of its server. The client
/// adds the version of the API to it.
pub open spec fn api_address(cluster: Cluster) -> Seq<char> {
    cluster.server@
}

/// The token of a cluster, or the empty text where it has none.
pub open spec fn api_token(cluster: Cluster) -> Seq<char> {
    match cluster.token {
        Some(token) => token@,
        None => Seq::empty(),
    }
}

impl Context {
    /// Sets a command up for the cluster that the configuration has in use:
    /// a client for its API and an empty session.
    pub fn init(configuration: Configuration) -> (res: Result<Context, Errors>)
        ensures
            match current_of(configuration) {
                Some(cluster) => res matches Ok(context) && context.configuration == configuration
                    && context.cluster == cluster && context.client.base() == api_address(cluster)
                    && context.client.token() == api_token(cluster) && context.session.workspace is None
                    && context.session.character is None && context.session.playbook is None
                    && context.session.actor is None,
                None => res matches Err(Errors::NotFoundCurrentContext),
            },
    {
        let cluster = match get_context(&configuration) {
            Ok(cluster) => cluster,
            Err(error) => {
                return Err(error);
            },
        };
        let token = match &cluster.token {
            Some(token) => token.clone(),
            None => String::new(),
        };
        let client = Client::new(cluster.server.clone(), token);
        Ok(Context { configuration, cluster, session: Session::new(), client })
    }
}

/// The cluster that the configuration has in use.
pub open spec fn current_of(configuration: Configuration) -> Option<Cluster> {
    match configuration.context {
        Some(contexts) => match contexts.current_cluster() {
            Some(entry) => Some(entry.1),
            None => None,
        },
        None => None,
    }
}

/// The cluster in use, or the failure of a configuration without one.
pub fn get_context(configuration: &Configuration) -> (res: Result<Cluster, Errors>)
    ensures
        match current_of(*configuration) {
            Some(cluster) => res == Ok::<Cluster, Errors>(cluster),
            None => res == Err::<Cluster, Errors>(Errors::NotFoundCurrentContext),
        },
{
    if let Some(context) = &configuration.context {
        if let Some((_, current)) = context.current() {
            return Ok(current.duplicate());
        }
    }
    Err(Errors::NotFoundCurrentContext)
}

} // verus!
