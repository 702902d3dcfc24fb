//! The exchange of an authorization code for an access token.

use vstd::prelude::*;
use crate::client::client::{Body, Client, Request};
use crate::client::errors::ClientError;

verus! {

/// What the application knows after the authorization step.
#[derive(Clone, Debug, PartialEq, Eq)]
pub struct OAuthTokenPayload {
    /// The client ID that the application was registered with.
    pub client_id: String,
    /// The client secret that the application was registered with.
    pub client_secret: String,
    /// The code acquired in the authorization step.
    pub code: String,
    /// Only held against the original redirect, not used to redirect again.
    pub redirect_uri: String,
    /// The state content that was passed to the authorization.
    pub state: String,
}

/// What is sent to exchange the code.
#[derive(Clone, Debug, PartialEq, Eq)]
pub struct OAuthTokenParams {
    pub grant_type: String,
    pub client_id: String,
    pub client_secret: String,
    pub code: String,
    pub redirect_uri: String,
    pub state: String,
}

/// The token that authenticates API calls.
#[derive(Clone, Debug, PartialEq, Eq)]
pub struct AccessToken {
    /// The token.
    pub access_token: String,
    /// The account that the token belongs to.
    pub account_id: u64,
    /// The token scope.
    pub scope: Option<String>,
    /// The token type.
    pub token_type: String,
}

/// The `oauth` service.
pub struct OAuth<'a> {
    pub client: &'a Client,
}

impl OAuth<'_> {
    /// The request that exchanges the short-lived authorization code for an
    /// access token. It is not signed: it carries no header.
    pub fn exchange_authorization_for_token(&self, payload: OAuthTokenPayload) -> (request: Request)
        ensures
            request.method@ == "POST"@,
            request.url@ == self.client.address("/oauth/access_token"@),
            request.headers@.len() == 0,
            request.body matches Some(Body::Token(params)) && params.grant_type@ == "authorization_code"@
                && params.client_id == payload.client_id && params.client_secret == payload.client_secret
                && params.code == payload.code && params.redirect_uri == payload.redirect_uri && params.state
                == payload.state,
    {
        let path = "/oauth/access_token";
        let params = OAuthTokenParams {
            grant_type: String::from_str("authorization_code"),
            client_id: payload.client_id,
            client_secret: payload.client_secret,
            code: payload.code,
            redirect_uri: payload.redirect_uri,
            state: payload.state,
        };
        Request {
            method: String::from_str("POST"),
            url: self.client.url(path),
            headers: Vec::new(),
            body: Some(Body::Token(params)),
        }
    }

    /// Reads the answer to the exchange: the token as it was read from the
    /// body, or the failure to send, to receive or to read.
    pub fn token_from(answer: Result<AccessToken, String>) -> (res: Result<AccessToken, ClientError>)
        ensures
            match answer {
                Ok(token) => res == Ok::<AccessToken, ClientError>(token),
                Err(reason) => res == Err::<AccessToken, ClientError>(ClientError::Deserialization(reason)),
            },
    {
        match answer {
            Ok(token) => Ok(token),
            Err(reason) => Err(ClientError::Deserialization(reason)),
        }
    }
}

} // verus!
