//! The account behind the token.

use vstd::prelude::*;
use crate::client::client::{Client, Request};

verus! {

/// An account of the remote service.
#[derive(Clone, Debug, PartialEq, Eq)]
pub struct Account {
    /// The account ID.
    pub id: u64,
    /// The account email.
    pub email: String,
    /// The account name.
    pub name: String,
    /// When the account was created.
    pub created_at: String,
    /// When the account was updated.
    pub updated_at: String,
}

/// The `accounts` service.
pub struct Accounts<'a> {
    pub client: &'a Client,
}

impl Accounts<'_> {
    /// The request for the details of the entity that the token stands for.
    pub fn me(&self) -> (request: Request)
        ensures
            self.client.signs(request, "GET"@, self.client.address("/me"@)),
    {
        self.client.get("/me", None)
    }
}

} // verus!
