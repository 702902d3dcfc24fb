//! The playbooks of the account.

use vstd::prelude::*;
use crate::client::client::{Body, Client, Request, RequestOptions};
use crate::resource::Preface;
use crate::text::{decimal, number};

verus! {

/// A playbook of the remote service.
#[derive(Clone, Debug, PartialEq, Eq)]
pub struct Playbook {
    /// The playbook ID.
    pub id: u64,
    /// The title of the playbook.
    pub title: String,
    /// The description of the playbook.
    pub description: String,
    /// When the playbook was created.
    pub created_at: String,
    /// When the playbook was last updated.
    pub updated_at: String,
}

/// What a playbook is created or updated from.
#[derive(Clone, Debug, PartialEq, Eq)]
pub struct PlaybookPayload {
    /// The title of the playbook.
    pub title: String,
    /// The description of the playbook.
    pub description: String,
    /// Where the lead character of the playbook comes from.
    pub preface: Preface,
}

/// The path made of a prefix, the decimal numeral of an ID and a suffix.
pub fn id_path(prefix: &str, id: u64, suffix: &str) -> (path: String)
    ensures
        path@ == prefix@ + decimal(id as nat) + suffix@,
{
    String::from_str(prefix).concat(number(id).as_str()).concat(suffix)
}

/// The `playbooks` service.
pub struct Playbooks<'a> {
    pub client: &'a Client,
}

impl Playbooks<'_> {
    /// The request for the playbooks of the account.
    pub fn list(&self, options: Option<RequestOptions>) -> (request: Request)
        ensures
            self.client.asks(request, "/playbooks"@, options),
    {
        self.client.get("/playbooks", options)
    }

    /// The request that creates a playbook in the account.
    pub fn create(&self, payload: PlaybookPayload) -> (request: Request)
        ensures
            request.method@ == "POST"@,
            request.url@ == self.client.address("/playbooks"@),
            request.body == Some(Body::Playbook(payload)),
    {
        self.client.post("/playbooks", Body::Playbook(payload))
    }

    /// The request for one playbook.
    pub fn get(&self, playbook_id: u64) -> (request: Request)
        ensures
            self.client.signs(
                request,
                "GET"@,
                self.client.address("/playbooks/"@ + decimal(playbook_id as nat) + ""@),
            ),
    {
        let path = id_path("/playbooks/", playbook_id, "");
        self.client.get(path.as_str(), None)
    }

    /// The request that updates a playbook.
    pub fn update(&self, playbook_id: u64, payload: PlaybookPayload) -> (request: Request)
        ensures
            request.method@ == "PATCH"@,
            request.url@ == self.client.address("/playbooks/"@ + decimal(playbook_id as nat) + ""@),
            request.body == Some(Body::Playbook(payload)),
    {
        let path = id_path("/playbooks/", playbook_id, "");
        self.client.patch(path.as_str(), Body::Playbook(payload))
    }

    /// The request that deletes a playbook.
    pub fn delete(&self, playbook_id: u64) -> (request: Request)
        ensures
            self.client.signs(
                request,
                "DELETE"@,
                self.client.address("/playbooks/"@ + decimal(playbook_id as nat) + ""@),
            ),
    {
        let path = id_path("/playbooks/", playbook_id, "");
        self.client.delete(path.as_str())
    }

    /// The request for the playbook that the remote service knows under
    /// `id`.
    pub fn find(&self, id: &str) -> (request: Request)
        ensures
            self.client.signs(request, "GET"@, self.client.address("/playbooks/"@ + id@)),
    {
        let path = String::from_str("/playbooks/").concat(id);
        self.client.get(path.as_str(), None)
    }

    /// The request that deletes the playbook that the remote service knows
    /// under `id`.
    pub fn remove(&self, id: &str) -> (request: Request)
        ensures
            self.client.signs(request, "DELETE"@, self.client.address("/playbooks/"@ + id@)),
    {
        let path = String::from_str("/playbooks/").concat(id);
        self.client.delete(path.as_str())
    }

    /// The event streams of a playbook.
    pub fn events(&self, _playbook_id: u64) -> (text: String)
        ensures
            text@ == "event stream (JSON)"@,
    {
        String::from_str("event stream (JSON)")
    }

    /// The request that starts a playbook.
    pub fn start(&self, playbook_id: u64) -> (request: Request)
        ensures
            self.client.signs(
                request,
                "POST"@,
                self.client.address("/playbooks/"@ + decimal(playbook_id as nat) + "/actions/start"@),
            ),
    {
        let path = id_path("/playbooks/", playbook_id, "/actions/start");
        self.client.empty_post(path.as_str())
    }

    /// The request that stops a playbook.
    pub fn stop(&self, playbook_id: u64) -> (request: Request)
        ensures
            self.client.signs(
                request,
                "POST"@,
                self.client.address("/playbooks/"@ + decimal(playbook_id as nat) + "/actions/stop"@),
            ),
    {
        let path = id_path("/playbooks/", playbook_id, "/actions/stop");
        self.client.empty_post(path.as_str())
    }
}

} // verus!
