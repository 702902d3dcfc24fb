//! The entry point of the API client: the addresses of the endpoints, the
//! requests to them and the reading of their answers.

use vstd::prelude::*;
use std::collections::HashMap;
use crate::client::accounts::Accounts;
use crate::client::actors::Actors;
use crate::client::errors::{stands_for, ClientError};
use crate::client::oauth::{OAuth, OAuthTokenParams};
use crate::client::playbooks::{PlaybookPayload, Playbooks};
use crate::sync::Synchronization;
use crate::text::{decimal, eq_ignore_ascii_case, equal_ignoring_case, number};

verus! {

/// The client of the remote API: where it lives and how to sign requests.
pub struct Client {
    base_url: String,
    user_agent: String,
    auth_token: String,
}

/// Any API endpoint that returns a list of items answers with a page.
#[derive(Clone, Copy, Debug, PartialEq, Eq, Structural)]
pub struct Pagination {
    /// The page currently returned.
    pub current_page: u64,
    /// The number of entries returned per page.
    pub per_page: u64,
    /// The total number of entries in the entire collection.
    pub total_entries: u64,
    /// The total number of pages, given `per_page`.
    pub total_pages: u64,
}

/// What a request to a listing endpoint can ask for.
pub struct RequestOptions {
    /// Ask only for a subset of the data.
    pub filters: Option<Filters>,
    /// Ask for an order.
    pub sort: Option<Sort>,
    /// Ask for a page.
    pub paginate: Option<Paginate>,
}

/// The answer to a call that carries no data, such as a deletion.
#[derive(Clone, Debug, PartialEq, Eq)]
pub struct EmptyResponse {
    /// The maximum number of requests per hour.
    pub rate_limit: String,
    /// The number of requests remaining in the current window.
    pub rate_limit_remaining: String,
    /// The time at which the current window ends.
    pub rate_limit_reset: Option<String>,
    /// The HTTP status code.
    pub status: u16,
}

/// The answer to a call that carries data.
#[derive(Clone, Debug, PartialEq, Eq)]
pub struct Response<T> {
    /// The maximum number of requests per hour.
    pub rate_limit: String,
    /// The number of requests remaining in the current window.
    pub rate_limit_remaining: String,
    /// The time at which the current window ends.
    pub rate_limit_reset: Option<String>,
    /// The HTTP status code.
    pub status: u16,
    /// The object or the objects that the endpoint answers with.
    pub data: Option<T>,
    /// The page, where the endpoint answers with a list.
    pub pagination: Option<Pagination>,
    /// The whole body as a JSON value.
    pub body: Option<serde_json::Value>,
}

/// The members of a JSON body, as they were read from it.
#[derive(Clone, Debug, PartialEq, Eq)]
pub struct Decoded<T> {
    pub data: Option<T>,
    pub pagination: Option<Pagination>,
    pub body: Option<serde_json::Value>,
}

/// Filters ask for the subset of the data that matches each of them.
#[derive(Debug)]
pub struct Filters {
    pub filters: HashMap<String, String>,
}

impl Filters {
    pub fn new(filters: HashMap<String, String>) -> (res: Filters)
        ensures
            res.filters == filters,
    {
        Filters { filters }
    }
}

/// A sorting policy: comma separated pairs of a field and `asc` or `desc`.
#[derive(Debug)]
pub struct Sort {
    pub sort_by: String,
}

impl Sort {
    pub fn new(sort_by: String) -> (res: Sort)
        ensures
            res.sort_by == sort_by,
    {
        Sort { sort_by }
    }
}

/// The page that a request asks for.
#[derive(Clone, Copy, Debug, PartialEq, Eq, Structural)]
pub struct Paginate {
    /// The number of items per page.
    pub per_page: u32,
    /// The page number.
    pub page: u32,
}

/// What a request sends along.
#[derive(Debug)]
pub enum Body {
    /// The description of a playbook to create or to update.
    Playbook(PlaybookPayload),
    /// The parameters of a token exchange.
    Token(OAuthTokenParams),
    /// A change of the sources of an actor.
    Synchronization(Synchronization),
}

/// A request to the remote API, ready to be sent.
#[derive(Debug)]
pub struct Request {
    /// The HTTP method.
    pub method: String,
    /// The address, with its query.
    pub url: String,
    /// The headers, in the order in which they are set.
    pub headers: Vec<(String, String)>,
    /// What is sent along as JSON, if anything.
    pub body: Option<Body>,
}

/// An answer of the remote API as it came over the wire.
#[derive(Clone, Debug, PartialEq, Eq)]
pub struct RawResponse {
    /// The HTTP status code.
    pub status: u16,
    /// The text behind the status code.
    pub status_text: String,
    /// The headers, in the order in which they came, names as they came.
    pub headers: Vec<(String, String)>,
    /// The body.
    pub body: String,
}

/// A call that did not come back with a result.
#[derive(Clone, Debug, PartialEq, Eq)]
pub enum Failure {
    /// The remote API answered with a status code of failure.
    Status(u16, RawResponse),
    /// The request did not get through; the text of the failure and its kind.
    Transport(String, String),
}

/// The address `url` with one more pair of its query, escaped as a web form
/// escapes it. An address that does not parse, or names no host, is left as
/// it is.
pub uninterp spec fn query_appended(url: Seq<char>, param: Seq<char>, value: Seq<char>) -> Seq<char>;

/// Calls `ureq::Request::query` on a request for `url` and reads the address
/// of the request back with `ureq::Request::url`.
#[verifier::external_body]
fn url_with_query(url: &str, param: &str, value: &str) -> (res: String)
    ensures
        res@ == query_appended(url@, param@, value@),
{
    ureq::get(url).query(param, value).url().to_string()
}

/// Walks the map with `HashMap::iter` and hands out a copy of each pair, once,
/// in the arbitrary order of the walk.
#[verifier::external_body]
fn filter_pairs(filters: &HashMap<String, String>) -> (pairs: Vec<(String, String)>)
    ensures
        pairs@.len() == filters@.len(),
        forall|i: int|
            0 <= i < pairs@.len() ==> filters@.contains_key((#[trigger] pairs@[i]).0) && filters@[pairs@[i].0]
                == pairs@[i].1,
        forall|i: int, j: int| 0 <= i < j < pairs@.len() ==> pairs@[i].0 != pairs@[j].0,
{
    filters.iter().map(|(key, value)| (key.clone(), value.clone())).collect()
}

/// The texts of the pairs, in order.
pub open spec fn pair_texts(pairs: Seq<(String, String)>) -> Seq<(Seq<char>, Seq<char>)> {
    Seq::new(pairs.len(), |i: int| (pairs[i].0@, pairs[i].1@))
}

/// The address `url` with these pairs added to its query, in order.
pub open spec fn with_pairs(url: Seq<char>, pairs: Seq<(Seq<char>, Seq<char>)>) -> Seq<char>
    decreases pairs.len(),
{
    if pairs.len() == 0 {
        url
    } else {
        query_appended(with_pairs(url, pairs.drop_last()), pairs.last().0, pairs.last().1)
    }
}

/// The pairs of a query: the page and its size, then the filters, then the
/// order.
pub open spec fn query_of(
    paginate: Option<Paginate>,
    filters: Seq<(Seq<char>, Seq<char>)>,
    sort: Option<Sort>,
) -> Seq<(Seq<char>, Seq<char>)> {
    let paging = match paginate {
        Some(pagination) => seq![
            ("page"@, decimal(pagination.page as nat)),
            ("per_page"@, decimal(pagination.per_page as nat)),
        ],
        None => Seq::empty(),
    };
    let order = match sort {
        Some(sort) => seq![("sort"@, sort.sort_by@)],
        None => Seq::empty(),
    };
    paging + filters + order
}

/// Adds the pairs to the query of the address, in order.
pub fn add_query(url: String, pairs: &Vec<(String, String)>) -> (res: String)
    ensures
        res@ == with_pairs(url@, pair_texts(pairs@)),
{
    let ghost start = url@;
    let mut url = url;
    let mut i: usize = 0;
    while i < pairs.len()
        invariant
            0 <= i <= pairs.len(),
            url@ == with_pairs(start, pair_texts(pairs@).take(i as int)),
        decreases pairs.len() - i,
    {
        proof {
            assert(pair_texts(pairs@).take(i + 1).drop_last() =~= pair_texts(pairs@).take(i as int));
        }
        url = url_with_query(url.as_str(), pairs[i].0.as_str(), pairs[i].1.as_str());
        i += 1;
    }
    assert(pair_texts(pairs@).take(pairs@.len() as int) =~= pair_texts(pairs@));
    url
}

/// Lists the pairs of a query: the page and its size, then the filters in
/// the order given, then the order.
pub fn request_query(paginate: Option<Paginate>, filters: Vec<(String, String)>, sort: Option<Sort>) -> (pairs: Vec<
    (String, String),
>)
    ensures
        pair_texts(pairs@) == query_of(paginate, pair_texts(filters@), sort),
{
    let mut pairs: Vec<(String, String)> = Vec::new();
    if let Some(pagination) = paginate {
        pairs.push((String::from_str("page"), number(pagination.page as u64)));
        pairs.push((String::from_str("per_page"), number(pagination.per_page as u64)));
    }
    let ghost paging = pair_texts(pairs@);
    let ghost given = pair_texts(filters@);
    let mut filters = filters;
    pairs.append(&mut filters);
    assert(pair_texts(pairs@) =~= paging + given);
    if let Some(order) = sort {
        let ghost before = pair_texts(pairs@);
        pairs.push((String::from_str("sort"), order.sort_by));
        assert(pair_texts(pairs@) =~= before.push(("sort"@, order.sort_by@)));
    }
    assert(pair_texts(pairs@) =~= query_of(paginate, given, sort));
    pairs
}

/// The value of the first header of the given name, the case of ASCII
/// letters set aside.
pub open spec fn header_value(headers: Seq<(String, String)>, name: Seq<char>) -> Option<Seq<char>>
    decreases headers.len(),
{
    if headers.len() == 0 {
        None
    } else if equal_ignoring_case(headers[0].0@, name) {
        Some(headers[0].1@)
    } else {
        header_value(headers.drop_first(), name)
    }
}

impl RawResponse {
    /// The value of the first header of the given name.
    pub fn header(&self, name: &str) -> (value: Option<String>)
        ensures
            match header_value(self.headers@, name@) {
                Some(text) => value matches Some(found) && found@ == text,
                None => value is None,
            },
    {
        let mut i: usize = 0;
        assert(self.headers@.skip(0) =~= self.headers@);
        while i < self.headers.len()
            invariant
                0 <= i <= self.headers.len(),
                header_value(self.headers@, name@) == header_value(self.headers@.skip(i as int), name@),
            decreases self.headers.len() - i,
        {
            proof {
                assert(self.headers@.skip(i as int).drop_first() =~= self.headers@.skip(i + 1));
            }
            if eq_ignore_ascii_case(self.headers[i].0.as_str(), name) {
                return Some(self.headers[i].1.clone());
            }
            i += 1;
        }
        None
    }
}

/// The headers that every request carries.
pub open spec fn signed_headers(user_agent: Seq<char>, token: Seq<char>) -> Seq<(Seq<char>, Seq<char>)> {
    seq![
        ("User-Agent"@, user_agent),
        ("Accept"@, "application/json"@),
        ("Authorization"@, "Bearer "@ + token),
    ]
}

impl Client {
    /// The address of the remote API.
    pub closed spec fn base(&self) -> Seq<char> {
        self.base_url@
    }

    /// The name that the client gives itself.
    pub closed spec fn agent(&self) -> Seq<char> {
        self.user_agent@
    }

    /// The bearer token.
    pub closed spec fn token(&self) -> Seq<char> {
        self.auth_token@
    }

    /// The address of the API in its current version.
    pub open spec fn versioned(&self) -> Seq<char> {
        self.base() + "/"@ + "v1"@
    }

    /// The address of an endpoint.
    pub open spec fn address(&self, path: Seq<char>) -> Seq<char> {
        self.versioned() + path
    }

    /// Whether `request` is a request of this client with the given method
    /// to the given address, without a body.
    pub open spec fn signs(&self, request: Request, method: Seq<char>, url: Seq<char>) -> bool {
        &&& request.method@ == method
        &&& request.url@ == url
        &&& pair_texts(request.headers@) == signed_headers(self.agent(), self.token())
        &&& request.body is None
    }

    /// Whether `request` asks the endpoint at `path` for its data with these
    /// options. The query holds the page and its size, then the filters in
    /// some order, then the order.
    pub open spec fn asks(&self, request: Request, path: Seq<char>, options: Option<RequestOptions>) -> bool {
        match options {
            None => self.signs(request, "GET"@, self.address(path)),
            Some(asked) => match asked.filters {
                None => self.signs(
                    request,
                    "GET"@,
                    with_pairs(self.address(path), query_of(asked.paginate, Seq::empty(), asked.sort)),
                ),
                Some(filters) => exists|walk: Seq<(String, String)>|
                    walks(filters.filters@, walk) && #[trigger] self.signs(
                        request,
                        "GET"@,
                        with_pairs(self.address(path), query_of(asked.paginate, pair_texts(walk), asked.sort)),
                    ),
            },
        }
    }

    /// Creates a client for the API at `base_url` that signs with `token`.
    pub fn new(base_url: String, token: String) -> (client: Client)
        ensures
            client.base() == base_url@,
            client.token() == token@,
            client.agent() == "amp/"@ + "0.1.0"@,
    {
        Client { base_url, user_agent: String::from_str("amp/").concat("0.1.0"), auth_token: token }
    }

    /// The address of the remote API.
    pub fn base_url(&self) -> (url: &str)
        ensures
            url@ == self.base(),
    {
        self.base_url.as_str()
    }

    /// The name that the client gives itself.
    pub fn user_agent(&self) -> (name: &str)
        ensures
            name@ == self.agent(),
    {
        self.user_agent.as_str()
    }

    /// The bearer token.
    pub fn auth_token(&self) -> (token: &str)
        ensures
            token@ == self.token(),
    {
        self.auth_token.as_str()
    }

    /// The address of the API, with the version of the API as part of the
    /// path.
    pub fn versioned_url(&self) -> (url: String)
        ensures
            url@ == self.versioned(),
    {
        let mut url = self.base_url.clone();
        url.append("/");
        url.append("v1");
        url
    }

    /// The address of the endpoint at `path`.
    pub fn url(&self, path: &str) -> (url: String)
        ensures
            url@ == self.address(path@),
    {
        let mut url = self.versioned_url();
        url.append(path);
        url
    }

    /// The request that asks the endpoint at `path` for its data.
    pub fn get(&self, path: &str, options: Option<RequestOptions>) -> (request: Request)
        ensures
            self.asks(request, path@, options),
    {
        self.build_get_request(path, options)
    }

    /// The request that sends `data` to the endpoint at `path`.
    pub fn post(&self, path: &str, data: Body) -> (request: Request)
        ensures
            request.method@ == "POST"@,
            request.url@ == self.address(path@),
            pair_texts(request.headers@) == signed_headers(self.agent(), self.token()),
            request.body == Some(data),
    {
        let request = self.build_post_request(path);
        Request { method: request.method, url: request.url, headers: request.headers, body: Some(data) }
    }

    /// The request that posts nothing to the endpoint at `path`.
    pub fn empty_post(&self, path: &str) -> (request: Request)
        ensures
            self.signs(request, "POST"@, self.address(path@)),
    {
        self.build_post_request(path)
    }

    /// The request that puts `data` at the endpoint at `path`.
    pub fn put(&self, path: &str, data: Body) -> (request: Request)
        ensures
            request.method@ == "PUT"@,
            request.url@ == self.address(path@),
            pair_texts(request.headers@) == signed_headers(self.agent(), self.token()),
            request.body == Some(data),
    {
        let request = self.build_put_request(path);
        Request { method: request.method, url: request.url, headers: request.headers, body: Some(data) }
    }

    /// The request that puts nothing at the endpoint at `path`.
    pub fn empty_put(&self, path: &str) -> (request: Request)
        ensures
            self.signs(request, "PUT"@, self.address(path@)),
    {
        self.build_put_request(path)
    }

    /// The request that patches the endpoint at `path` with `data`.
    pub fn patch(&self, path: &str, data: Body) -> (request: Request)
        ensures
            request.method@ == "PATCH"@,
            request.url@ == self.address(path@),
            pair_texts(request.headers@) == signed_headers(self.agent(), self.token()),
            request.body == Some(data),
    {
        let request = self.build_patch_request(path);
        Request { method: request.method, url: request.url, headers: request.headers, body: Some(data) }
    }

    /// The request that deletes what the endpoint at `path` stands for.
    pub fn delete(&self, path: &str) -> (request: Request)
        ensures
            self.signs(request, "DELETE"@, self.address(path@)),
    {
        self.build_delete_request(path)
    }

    /// The request that deletes what the endpoint at `path` stands for and
    /// expects data in the answer.
    pub fn delete_with_response(&self, path: &str) -> (request: Request)
        ensures
            self.signs(request, "DELETE"@, self.address(path@)),
    {
        self.build_delete_request(path)
    }

    /// Reads the answer to a call that carries data. `decoded` holds the
    /// members of the body of a successful answer as they were read from it,
    /// or the text of the failure to read them.
    pub fn process_response<T>(result: Result<RawResponse, Failure>, decoded: Result<Decoded<T>, String>) -> (res:
        Result<Response<T>, ClientError>)
        ensures
            result matches Ok(response) ==> built_response(response, decoded, res),
            result matches Err(Failure::Transport(message, kind)) ==> res == Err::<Response<T>, ClientError>(
                ClientError::Transport(message, kind),
            ),
            result matches Err(Failure::Status(code, response)) ==> (res matches Err(error) && stands_for(
                code,
                response,
                error,
            )),
    {
        match result {
            Ok(response) => Self::build_response(response, decoded),
            Err(Failure::Status(code, response)) => Err(ClientError::parse_response(code, response)),
            Err(Failure::Transport(message, kind)) => Err(ClientError::parse_transport(message, kind)),
        }
    }

    /// Reads the answer to a call that carries no data.
    pub fn call_empty(result: Result<RawResponse, Failure>) -> (res: Result<EmptyResponse, ClientError>)
        ensures
            result matches Ok(response) ==> built_empty_response(response, res),
            result matches Err(Failure::Transport(message, kind)) ==> res == Err::<EmptyResponse, ClientError>(
                ClientError::Transport(message, kind),
            ),
            result matches Err(Failure::Status(code, response)) ==> (res matches Err(error) && stands_for(
                code,
                response,
                error,
            )),
    {
        match result {
            Ok(response) => Self::build_empty_response(response),
            Err(Failure::Status(code, response)) => Err(ClientError::parse_response(code, response)),
            Err(Failure::Transport(message, kind)) => Err(ClientError::parse_transport(message, kind)),
        }
    }

    fn build_response<T>(resp: RawResponse, decoded: Result<Decoded<T>, String>) -> (res: Result<
        Response<T>,
        ClientError,
    >)
        ensures
            built_response(resp, decoded, res),
    {
        let rate_limit = match Self::extract_rate_limit_limit_header(&resp) {
            Ok(value) => value,
            Err(error) => {
                return Err(error);
            },
        };
        let rate_limit_remaining = match Self::extract_rate_limit_remaining_header(&resp) {
            Ok(value) => value,
            Err(error) => {
                return Err(error);
            },
        };
        let rate_limit_reset = Self::extract_rate_limit_reset_header(&resp);
        let status = resp.status;
        match decoded {
            Ok(members) => Ok(
                Response {
                    rate_limit,
                    rate_limit_remaining,
                    rate_limit_reset,
                    status,
                    data: members.data,
                    pagination: members.pagination,
                    body: members.body,
                },
            ),
            Err(text) => Err(ClientError::Deserialization(text)),
        }
    }

    fn extract_rate_limit_reset_header(resp: &RawResponse) -> (value: Option<String>)
        ensures
            match header_value(resp.headers@, "x-ratelimit-after"@) {
                Some(text) => value matches Some(found) && found@ == text,
                None => value is None,
            },
    {
        resp.header("x-ratelimit-after")
    }

    fn extract_rate_limit_remaining_header(resp: &RawResponse) -> (value: Result<String, ClientError>)
        ensures
            match header_value(resp.headers@, "x-ratelimit-remaining"@) {
                Some(text) => value matches Ok(found) && found@ == text,
                None => value matches Err(ClientError::Deserialization(reason)) && reason@
                    == "Cannot parse the x-ratelimit-remaining header"@,
            },
    {
        match resp.header("x-ratelimit-remaining") {
            Some(header) => Ok(header),
            None => Err(ClientError::Deserialization(String::from_str("Cannot parse the x-ratelimit-remaining header"))),
        }
    }

    fn extract_rate_limit_limit_header(resp: &RawResponse) -> (value: Result<String, ClientError>)
        ensures
            match header_value(resp.headers@, "x-ratelimit-limit"@) {
                Some(text) => value matches Ok(found) && found@ == text,
                None => value matches Err(ClientError::Deserialization(reason)) && reason@
                    == "Cannot parse the x-ratelimit-limit header"@,
            },
    {
        match resp.header("x-ratelimit-limit") {
            Some(header) => Ok(header),
            None => Err(ClientError::Deserialization(String::from_str("Cannot parse the x-ratelimit-limit header"))),
        }
    }

    fn build_empty_response(response: RawResponse) -> (res: Result<EmptyResponse, ClientError>)
        ensures
            built_empty_response(response, res),
    {
        let rate_limit = match Self::extract_rate_limit_limit_header(&response) {
            Ok(value) => value,
            Err(error) => {
                return Err(error);
            },
        };
        let rate_limit_remaining = match Self::extract_rate_limit_remaining_header(&response) {
            Ok(value) => value,
            Err(error) => {
                return Err(error);
            },
        };
        Ok(
            EmptyResponse {
                rate_limit,
                rate_limit_remaining,
                rate_limit_reset: Self::extract_rate_limit_reset_header(&response),
                status: response.status,
            },
        )
    }

    fn build_get_request(&self, path: &str, options: Option<RequestOptions>) -> (request: Request)
        ensures
            self.asks(request, path@, options),
    {
        let mut url = self.url(path);
        if let Some(options) = options {
            let walk = match options.filters {
                Some(filters) => filter_pairs(&filters.filters),
                None => Vec::new(),
            };
            let ghost walked = walk@;
            let pairs = request_query(options.paginate, walk, options.sort);
            url = add_query(url, &pairs);
            proof {
                if options.filters is Some {
                    assert(walks(options.filters->Some_0.filters@, walked));
                } else {
                    assert(pair_texts(walked) =~= Seq::empty());
                }
            }
        } else {
            assert(with_pairs(url@, Seq::empty()) == url@);
        }
        self.add_headers_to_request(String::from_str("GET"), url)
    }

    /// The request that posts to the endpoint at `path`, before anything is
    /// sent along.
    pub fn build_post_request(&self, path: &str) -> (request: Request)
        ensures
            self.signs(request, "POST"@, self.address(path@)),
    {
        self.add_headers_to_request(String::from_str("POST"), self.url(path))
    }

    /// The request that puts at the endpoint at `path`, before anything is
    /// sent along.
    pub fn build_put_request(&self, path: &str) -> (request: Request)
        ensures
            self.signs(request, "PUT"@, self.address(path@)),
    {
        self.add_headers_to_request(String::from_str("PUT"), self.url(path))
    }

    /// The request that patches the endpoint at `path`, before anything is
    /// sent along.
    pub fn build_patch_request(&self, path: &str) -> (request: Request)
        ensures
            self.signs(request, "PATCH"@, self.address(path@)),
    {
        self.add_headers_to_request(String::from_str("PATCH"), self.url(path))
    }

    fn build_delete_request(&self, path: &str) -> (request: Request)
        ensures
            self.signs(request, "DELETE"@, self.address(path@)),
    {
        self.add_headers_to_request(String::from_str("DELETE"), self.url(path))
    }

    fn add_headers_to_request(&self, method: String, url: String) -> (request: Request)
        ensures
            self.signs(request, method@, url@),
    {
        let mut headers: Vec<(String, String)> = Vec::new();
        headers.push((String::from_str("User-Agent"), self.user_agent.clone()));
        headers.push((String::from_str("Accept"), String::from_str("application/json")));
        headers.push((String::from_str("Authorization"), String::from_str("Bearer ").concat(self.auth_token.as_str())));
        assert(pair_texts(headers@) =~= signed_headers(self.agent(), self.token()));
        Request { method, url, headers, body: None }
    }

    /// The `accounts` service of this client.
    pub fn accounts(&self) -> (service: Accounts<'_>)
        ensures
            service.client == self,
    {
        Accounts { client: self }
    }

    /// The `actors` service of this client.
    pub fn actors(&self) -> (service: Actors<'_>)
        ensures
            service.client == self,
    {
        Actors { client: self }
    }

    /// The `oauth` service of this client.
    pub fn oauth(&self) -> (service: OAuth<'_>)
        ensures
            service.client == self,
    {
        OAuth { client: self }
    }

    /// The `playbooks` service of this client.
    pub fn playbooks(&self) -> (service: Playbooks<'_>)
        ensures
            service.client == self,
    {
        Playbooks { client: self }
    }
}

/// Whether `walk` hands out each pair of the map once.
pub open spec fn walks(filters: Map<String, String>, walk: Seq<(String, String)>) -> bool {
    &&& walk.len() == filters.len()
    &&& forall|i: int|
        0 <= i < walk.len() ==> filters.contains_key((#[trigger] walk[i]).0) && filters[walk[i].0] == walk[i].1
    &&& forall|i: int, j: int| 0 <= i < j < walk.len() ==> walk[i].0 != walk[j].0
}

/// The reason for which the rate limit headers of an answer cannot be read,
/// if there is one: the limit is looked for first, then what remains of it.
pub open spec fn unreadable_limits(response: RawResponse) -> Option<Seq<char>> {
    if header_value(response.headers@, "x-ratelimit-limit"@) is None {
        Some("Cannot parse the x-ratelimit-limit header"@)
    } else if header_value(response.headers@, "x-ratelimit-remaining"@) is None {
        Some("Cannot parse the x-ratelimit-remaining header"@)
    } else {
        None
    }
}

/// Whether the texts are the same, where there are any.
pub open spec fn same_text(left: Option<String>, right: Option<Seq<char>>) -> bool {
    match right {
        Some(text) => left matches Some(found) && found@ == text,
        None => left is None,
    }
}

/// Whether `res` is what the answer to a call without data is read as.
pub open spec fn built_empty_response(response: RawResponse, res: Result<EmptyResponse, ClientError>) -> bool {
    match unreadable_limits(response) {
        Some(reason) => res matches Err(ClientError::Deserialization(text)) && text@ == reason,
        None => {
            &&& res matches Ok(read)
            &&& Some(read.rate_limit@) == header_value(response.headers@, "x-ratelimit-limit"@)
            &&& Some(read.rate_limit_remaining@) == header_value(response.headers@, "x-ratelimit-remaining"@)
            &&& same_text(read.rate_limit_reset, header_value(response.headers@, "x-ratelimit-after"@))
            &&& read.status == response.status
        },
    }
}

/// Whether `res` is what the answer to a call with data is read as: the rate
/// limit headers must be there, and then the body must have been read.
pub open spec fn built_response<T>(
    response: RawResponse,
    decoded: Result<Decoded<T>, String>,
    res: Result<Response<T>, ClientError>,
) -> bool {
    match unreadable_limits(response) {
        Some(reason) => res matches Err(ClientError::Deserialization(text)) && text@ == reason,
        None => match decoded {
            Err(reason) => res == Err::<Response<T>, ClientError>(ClientError::Deserialization(reason)),
            Ok(members) => {
                &&& res matches Ok(read)
                &&& Some(read.rate_limit@) == header_value(response.headers@, "x-ratelimit-limit"@)
                &&& Some(read.rate_limit_remaining@) == header_value(response.headers@, "x-ratelimit-remaining"@)
                &&& same_text(read.rate_limit_reset, header_value(response.headers@, "x-ratelimit-after"@))
                &&& read.status == response.status
                &&& read.data == members.data
                &&& read.pagination == members.pagination
                &&& read.body == members.body
            },
        },
    }
}

} // verus!
