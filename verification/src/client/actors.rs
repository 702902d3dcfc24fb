//! The actors of a playbook.

use vstd::prelude::*;
use crate::client::client::{pair_texts, signed_headers, Body, Client, Request, RequestOptions};
use crate::client::playbooks::id_path;
use crate::sync::Synchronization;
use crate::text::decimal;

verus! {

/// A running instance of a character within a playbook.
#[derive(Clone, Debug, PartialEq, Eq)]
pub struct Actor {
    /// The actor id.
    pub id: u64,
    /// The title of the actor.
    pub title: String,
    /// The description of the actor.
    pub description: String,
    /// When the actor was created.
    pub created_at: String,
    /// When the actor was last updated.
    pub updated_at: String,
}

/// The `actors` service.
pub struct Actors<'a> {
    pub client: &'a Client,
}

/// The path of an endpoint of the actor that runs the character `name` in
/// the playbook `pid`.
pub open spec fn actor_path(pid: Seq<char>, name: Seq<char>, endpoint: Seq<char>) -> Seq<char> {
    "/actors/"@ + pid + "/"@ + name + endpoint
}

fn actor_endpoint(pid: &str, name: &str, endpoint: &str) -> (path: String)
    ensures
        path@ == actor_path(pid@, name@, endpoint@),
{
    String::from_str("/actors/").concat(pid).concat("/").concat(name).concat(endpoint)
}

impl Actors<'_> {
    /// The request for the actors of a playbook.
    pub fn list(&self, playbook_id: u64, options: Option<RequestOptions>) -> (request: Request)
        ensures
            self.client.asks(request, "/playbooks/"@ + decimal(playbook_id as nat) + "/actors"@, options),
    {
        let path = id_path("/playbooks/", playbook_id, "/actors");
        self.client.get(path.as_str(), options)
    }

    /// The request for one actor.
    pub fn get(&self, actor_id: u64) -> (request: Request)
        ensures
            self.client.signs(request, "GET"@, self.client.address("/actors/"@ + decimal(actor_id as nat) + ""@)),
    {
        let path = id_path("/actors/", actor_id, "");
        self.client.get(path.as_str(), None)
    }

    /// The log streams of an actor.
    pub fn logs(&self, _actor_id: u64) -> (text: String)
        ensures
            text@ == "event stream (JSON)"@,
    {
        String::from_str("event stream (JSON)")
    }

    /// The request for what is known of an actor: environments, volumes.
    pub fn info(&self, actor_id: u64) -> (request: Request)
        ensures
            self.client.signs(
                request,
                "GET"@,
                self.client.address("/actors/"@ + decimal(actor_id as nat) + "/info"@),
            ),
    {
        let path = id_path("/actors/", actor_id, "/info");
        self.client.get(path.as_str(), None)
    }

    /// The request for the statistics of an actor.
    pub fn stats(&self, actor_id: u64) -> (request: Request)
        ensures
            self.client.signs(
                request,
                "GET"@,
                self.client.address("/actors/"@ + decimal(actor_id as nat) + "/stats"@),
            ),
    {
        let path = id_path("/actors/", actor_id, "/stats");
        self.client.get(path.as_str(), None)
    }

    /// The request that delivers a change of the sources to the actor that
    /// runs the character `name` in the playbook `pid`.
    pub fn sync(&self, pid: &str, name: &str, req: Synchronization) -> (request: Request)
        ensures
            request.method@ == "POST"@,
            request.url@ == self.client.address(actor_path(pid@, name@, "/sync"@)),
            pair_texts(request.headers@) == signed_headers(self.client.agent(), self.client.token()),
            request.body == Some(Body::Synchronization(req)),
    {
        let path = actor_endpoint(pid, name, "/sync");
        self.client.post(path.as_str(), Body::Synchronization(req))
    }

    /// The request that opens the log stream of the actor that runs the
    /// character `name` in the playbook `pid`.
    pub fn stream(&self, pid: &str, name: &str) -> (request: Request)
        ensures
            self.client.signs(request, "GET"@, self.client.address(actor_path(pid@, name@, "/logs"@))),
    {
        let path = actor_endpoint(pid, name, "/logs");
        self.client.get(path.as_str(), None)
    }
}

} // verus!
