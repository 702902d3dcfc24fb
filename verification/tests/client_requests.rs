use amp::client::accounts::Account;
use amp::client::actors::Actor;
use amp::client::client::{
    add_query, request_query, Body, Client, Decoded, EmptyResponse, Failure, Filters, Paginate, Pagination, RawResponse,
    Request, RequestOptions, Response, Sort,
};
use amp::client::errors::ClientError;
use amp::client::oauth::{AccessToken, OAuth, OAuthTokenPayload};
use amp::client::playbooks::{id_path, Playbook, PlaybookPayload};
use amp::resource::Preface;
use amp::sync::{EventKinds, Synchronization};
use std::collections::HashMap;

const BASE_URL: &str = "https://cloud.amphitheatre.app";
const MOCK_URL: &str = "http://127.0.0.1:1234";

fn client() -> Client {
    Client::new(String::from(MOCK_URL), String::from("some-token"))
}

fn answer(status: u16, body: &str) -> RawResponse {
    RawResponse {
        status,
        status_text: String::from("OK"),
        headers: vec![
            ("x-ratelimit-limit".to_string(), "2".to_string()),
            ("x-ratelimit-remaining".to_string(), "2".to_string()),
            ("x-ratelimit-after".to_string(), "never".to_string()),
        ],
        body: body.to_string(),
    }
}

fn signed(request: &Request, method: &str, url: &str) {
    assert_eq!(request.method, method);
    assert_eq!(request.url, url);
    assert_eq!(
        request.headers,
        vec![
            ("User-Agent".to_string(), "amp/0.1.0".to_string()),
            ("Accept".to_string(), "application/json".to_string()),
            ("Authorization".to_string(), "Bearer some-token".to_string()),
        ]
    );
}

fn actor(id: u64) -> Actor {
    Actor {
        id,
        title: "Default".to_string(),
        description: "First".to_string(),
        created_at: "2016-01-19T20:50:26Z".to_string(),
        updated_at: "2016-01-19T20:50:26Z".to_string(),
    }
}

fn playbook(id: u64) -> Playbook {
    Playbook {
        id,
        title: "Default".to_string(),
        description: "First".to_string(),
        created_at: "2016-01-19T20:50:26Z".to_string(),
        updated_at: "2016-01-19T20:50:26Z".to_string(),
    }
}

fn decoded<T>(data: T) -> Result<Decoded<T>, String> {
    Ok(Decoded { data: Some(data), pagination: None, body: None })
}

#[test]
fn creates_a_client() {
    let token = "some-auth-token";
    let client = Client::new(String::from(BASE_URL), String::from(token));

    assert_eq!(client.base_url(), BASE_URL);
    assert_eq!(client.user_agent(), "amp/".to_owned() + "0.1.0");
    assert_eq!(client.auth_token(), token);
}

#[test]
fn urls_carry_the_version() {
    let client = Client::new(String::from(BASE_URL), String::from("t"));
    assert_eq!(client.versioned_url(), "https://cloud.amphitheatre.app/v1");
    assert_eq!(client.url("/me"), "https://cloud.amphitheatre.app/v1/me");
    assert_eq!(client.url(""), "https://cloud.amphitheatre.app/v1");
}

#[test]
fn can_paginate() {
    let client = client();
    let options = RequestOptions { filters: None, sort: None, paginate: Some(Paginate { per_page: 2, page: 2 }) };

    let request = client.get("/pagination_test", Some(options));
    signed(&request, "GET", &format!("{}/v1{}", MOCK_URL, "/pagination_test?page=2&per_page=2"));
}

#[test]
fn can_filter() {
    let client = client();
    let mut filters = HashMap::new();
    filters.insert("name_like".to_string(), "example".to_string());
    let options = RequestOptions { filters: Some(Filters { filters }), sort: None, paginate: None };

    let request = client.get("/filter_test", Some(options));
    signed(&request, "GET", &format!("{}/v1{}", MOCK_URL, "/filter_test?name_like=example"));
}

#[test]
fn can_sort() {
    let client = client();
    let options =
        RequestOptions { filters: None, sort: Some(Sort { sort_by: "expiration:asc".to_string() }), paginate: None };

    let request = client.get("/sort_test", Some(options));
    signed(&request, "GET", &format!("{}/v1{}", MOCK_URL, "/sort_test?sort=expiration%3Aasc"));
}

#[test]
fn a_query_holds_the_page_then_the_filters_then_the_order() {
    let client = client();
    let mut filters = HashMap::new();
    filters.insert("a".to_string(), "1".to_string());
    filters.insert("b".to_string(), "x y".to_string());
    let options = RequestOptions {
        filters: Some(Filters::new(filters)),
        sort: Some(Sort::new("id:desc".to_string())),
        paginate: Some(Paginate { per_page: 30, page: 1 }),
    };
    let request = client.get("/things", Some(options));
    let one = format!("{}/v1/things?page=1&per_page=30&a=1&b=x+y&sort=id%3Adesc", MOCK_URL);
    let other = format!("{}/v1/things?page=1&per_page=30&b=x+y&a=1&sort=id%3Adesc", MOCK_URL);
    assert!(request.url == one || request.url == other);
    assert!(request.body.is_none());
}

#[test]
fn request_query_lists_the_pairs_in_order() {
    let pairs = request_query(
        Some(Paginate { per_page: 5, page: 12 }),
        vec![("k".to_string(), "v".to_string())],
        Some(Sort::new("id".to_string())),
    );
    assert_eq!(
        pairs,
        vec![
            ("page".to_string(), "12".to_string()),
            ("per_page".to_string(), "5".to_string()),
            ("k".to_string(), "v".to_string()),
            ("sort".to_string(), "id".to_string()),
        ]
    );
    assert!(request_query(None, Vec::new(), None).is_empty());
    assert_eq!(add_query("http://h/p".to_string(), &pairs), "http://h/p?page=12&per_page=5&k=v&sort=id");
    assert_eq!(add_query("http://h/p".to_string(), &Vec::new()), "http://h/p");
    // an address without a host is left as it is
    assert_eq!(add_query("/p".to_string(), &pairs), "/p");
}

#[test]
fn filters_and_sort_keep_what_they_are_given() {
    let mut map = HashMap::new();
    map.insert("a".to_string(), "b".to_string());
    assert_eq!(Filters::new(map.clone()).filters, map);
    assert_eq!(Sort::new("id:asc".to_string()).sort_by, "id:asc");
}

#[test]
fn requests_without_a_query() {
    let client = client();
    signed(&client.get("/me", None), "GET", "http://127.0.0.1:1234/v1/me");
    signed(&client.empty_post("/a"), "POST", "http://127.0.0.1:1234/v1/a");
    signed(&client.empty_put("/a"), "PUT", "http://127.0.0.1:1234/v1/a");
    signed(&client.delete("/a"), "DELETE", "http://127.0.0.1:1234/v1/a");
    signed(&client.delete_with_response("/a"), "DELETE", "http://127.0.0.1:1234/v1/a");
    signed(&client.build_post_request("/a"), "POST", "http://127.0.0.1:1234/v1/a");
    signed(&client.build_put_request("/a"), "PUT", "http://127.0.0.1:1234/v1/a");
    signed(&client.build_patch_request("/a"), "PATCH", "http://127.0.0.1:1234/v1/a");
    let empty = RequestOptions { filters: None, sort: None, paginate: None };
    signed(&client.get("/me", Some(empty)), "GET", "http://127.0.0.1:1234/v1/me");
}

#[test]
fn requests_with_a_body() {
    let client = client();
    let payload =
        PlaybookPayload { title: "Default".into(), description: "First".into(), preface: Preface::repository("r") };
    let request = client.post("/playbooks", Body::Playbook(payload.clone()));
    signed(&request, "POST", "http://127.0.0.1:1234/v1/playbooks");
    assert!(matches!(&request.body, Some(Body::Playbook(sent)) if *sent == payload));
    let request = client.put("/playbooks/1", Body::Playbook(payload.clone()));
    signed(&request, "PUT", "http://127.0.0.1:1234/v1/playbooks/1");
    assert!(matches!(&request.body, Some(Body::Playbook(sent)) if *sent == payload));
    let request = client.patch("/playbooks/1", Body::Playbook(payload.clone()));
    signed(&request, "PATCH", "http://127.0.0.1:1234/v1/playbooks/1");
    assert!(matches!(&request.body, Some(Body::Playbook(sent)) if *sent == payload));
}

#[test]
fn me_success_with_account() {
    let client = client();
    signed(&client.accounts().me(), "GET", "http://127.0.0.1:1234/v1/me");
    let account = Account {
        id: 1,
        email: "example-account@example.com".to_string(),
        name: "example-account".to_string(),
        created_at: "2015-09-18T23:04:37Z".to_string(),
        updated_at: "2016-06-09T20:03:39Z".to_string(),
    };
    let response = Client::process_response(Ok(answer(200, "{}")), decoded(account)).unwrap();

    let account = response.data.unwrap();

    assert_eq!(1, account.id);
    assert_eq!("example-account@example.com", account.email);
    assert_eq!("example-account", account.name);
}

#[test]
fn list_actors_test() {
    let playbook_id = 1;
    let client = client();
    signed(
        &client.actors().list(playbook_id, None),
        "GET",
        &format!("{}/v1{}", MOCK_URL, format!("/playbooks/{}/actors", playbook_id)),
    );

    let actors =
        Client::process_response(Ok(answer(200, "{}")), decoded(vec![actor(1), actor(2)])).unwrap().data.unwrap();

    assert_eq!(2, actors.len());

    let actor = actors.first().unwrap();

    assert_eq!(1, actor.id);
    assert_eq!("Default", actor.title);
    assert_eq!("First", actor.description);
    assert_eq!("2016-01-19T20:50:26Z", actor.created_at);
    assert_eq!("2016-01-19T20:50:26Z", actor.updated_at);
}

#[test]
fn get_actor_test() {
    let client = client();
    let actor_id = 1;
    signed(&client.actors().get(actor_id), "GET", "http://127.0.0.1:1234/v1/actors/1");

    let actor = Client::process_response(Ok(answer(200, "{}")), decoded(actor(1))).unwrap().data.unwrap();

    assert_eq!(1, actor.id);
    assert_eq!("Default", actor.title);
    assert_eq!("First", actor.description);
    assert_eq!("2016-01-19T20:50:26Z", actor.created_at);
    assert_eq!("2016-01-19T20:50:26Z", actor.updated_at);
}

#[test]
fn get_actor_logs() {
    let client = client();
    let actor_id = 1;

    let response = client.actors().logs(actor_id);

    assert_eq!(String::from("event stream (JSON)"), response);
}

#[test]
fn get_actor_info_test() {
    let client = client();
    let actor_id = 1;
    signed(&client.actors().info(actor_id), "GET", "http://127.0.0.1:1234/v1/actors/1/info");

    let body = "{\"environments\":{\"K3S_TOKEN\":\"RdqNLMXRiRsHJhmxKurR\"},\"mounts\":{\"/VAR/LOG\":\"/var/lib/docker/volumes/f64c2f2cf81cfde89879f2a17924b31bd2f2e6a6a738f7df949bf6bd57102d25/_data\"},\"port\":{\"6443/tcp\":\"0.0.0.0:42397\"}}";
    let value: serde_json::Value = serde_json::from_str(body).unwrap();
    let json = Client::process_response(Ok(answer(200, body)), decoded(value)).unwrap().data.unwrap();

    assert_eq!("RdqNLMXRiRsHJhmxKurR", json["environments"]["K3S_TOKEN"]);
    assert_eq!(
        "/var/lib/docker/volumes/f64c2f2cf81cfde89879f2a17924b31bd2f2e6a6a738f7df949bf6bd57102d25/_data",
        json["mounts"]["/VAR/LOG"]
    );
    assert_eq!("0.0.0.0:42397", json["port"]["6443/tcp"]);
}

#[test]
fn get_actor_stats_test() {
    let client = client();
    let actor_id = 1;
    signed(&client.actors().stats(actor_id), "GET", "http://127.0.0.1:1234/v1/actors/1/stats");

    let body = "{\"CPU USAGE\":\"1.98%\",\"DISK READ/WRITE\":\"5.3MB / 43.7 MB\",\"MEMORY USAGE\":\"65.8MB\",\"NETWORK I/O\":\"5.7 kB / 3 kB\"}";
    let value: serde_json::Value = serde_json::from_str(body).unwrap();
    let json = Client::process_response(Ok(answer(200, body)), decoded(value)).unwrap().data.unwrap();

    assert_eq!("1.98%", json["CPU USAGE"]);
    assert_eq!("5.3MB / 43.7 MB", json["DISK READ/WRITE"]);
    assert_eq!("65.8MB", json["MEMORY USAGE"]);
    assert_eq!("5.7 kB / 3 kB", json["NETWORK I/O"]);
}

#[test]
fn a_synchronization_is_addressed_to_its_actor() {
    let client = client();
    let request = Synchronization { kind: EventKinds::Remove, paths: Vec::new(), attributes: None, payload: None };
    let sent = client.actors().sync("pid-1", "lead", request.clone());
    signed(&sent, "POST", "http://127.0.0.1:1234/v1/actors/pid-1/lead/sync");
    assert!(matches!(&sent.body, Some(Body::Synchronization(carried)) if *carried == request));
    signed(&client.actors().stream("pid-1", "lead"), "GET", "http://127.0.0.1:1234/v1/actors/pid-1/lead/logs");
    signed(&client.playbooks().find("pid-1"), "GET", "http://127.0.0.1:1234/v1/playbooks/pid-1");
    signed(&client.playbooks().remove("pid-1"), "DELETE", "http://127.0.0.1:1234/v1/playbooks/pid-1");
}

#[test]
fn exchange_authorization_for_token_test() {
    let client = client();

    let payload = OAuthTokenPayload {
        client_id: "id".to_string(),
        client_secret: "secret".to_string(),
        code: "code".to_string(),
        redirect_uri: "/redirect_uri".to_string(),
        state: "state".to_string(),
    };

    let request = client.oauth().exchange_authorization_for_token(payload);
    assert_eq!(request.method, "POST");
    assert_eq!(request.url, "http://127.0.0.1:1234/v1/oauth/access_token");
    assert!(request.headers.is_empty());
    match &request.body {
        Some(Body::Token(params)) => {
            assert_eq!(params.grant_type, "authorization_code");
            assert_eq!(params.client_id, "id");
            assert_eq!(params.client_secret, "secret");
            assert_eq!(params.code, "code");
            assert_eq!(params.redirect_uri, "/redirect_uri");
            assert_eq!(params.state, "state");
        }
        _ => panic!("the request carries no token parameters"),
    }

    let read = AccessToken {
        access_token: "zKQ7OLqF5N1gylcJweA9WodA000BUNJD".to_string(),
        account_id: 1,
        scope: None,
        token_type: "Bearer".to_string(),
    };
    let access_token = match OAuth::token_from(Ok(read)) {
        Ok(token) => token,
        Err(_) => {
            panic!("The token wasn't where we expected it to be")
        }
    };

    assert_eq!("zKQ7OLqF5N1gylcJweA9WodA000BUNJD", access_token.access_token);
    assert_eq!("Bearer", access_token.token_type);
    assert_eq!(None, access_token.scope);
    assert_eq!(1, access_token.account_id);
    assert_eq!(
        OAuth::token_from(Err("connection refused".to_string())),
        Err(ClientError::Deserialization("connection refused".to_string()))
    );
}

#[test]
fn list_playbooks_test() {
    let client = client();
    signed(&client.playbooks().list(None), "GET", "http://127.0.0.1:1234/v1/playbooks");

    let playbooks =
        Client::process_response(Ok(answer(200, "{}")), decoded(vec![playbook(1), playbook(2)])).unwrap().data.unwrap();

    assert_eq!(2, playbooks.len());

    let playbook = playbooks.first().unwrap();

    assert_eq!(1, playbook.id);
    assert_eq!("Default", playbook.title);
    assert_eq!("First", playbook.description);
    assert_eq!("2016-01-19T20:50:26Z", playbook.created_at);
    assert_eq!("2016-01-19T20:50:26Z", playbook.updated_at);
}

#[test]
fn create_playbook_test() {
    let client = client();

    let payload = PlaybookPayload {
        title: String::from("Default"),
        description: String::from("First"),
        preface: Preface::repository("https://github.com/amphitheatre-app/amp-example-go"),
    };

    let request = client.playbooks().create(payload.clone());
    signed(&request, "POST", "http://127.0.0.1:1234/v1/playbooks");
    assert!(matches!(&request.body, Some(Body::Playbook(sent)) if *sent == payload));
    let playbook = Client::process_response(Ok(answer(201, "{}")), decoded(playbook(1))).unwrap().data.unwrap();

    assert_eq!(1, playbook.id);
    assert_eq!("Default", playbook.title);
    assert_eq!("First", playbook.description);
}

#[test]
fn get_playbook_test() {
    let client = client();
    let playbook_id = 1;
    signed(&client.playbooks().get(playbook_id), "GET", "http://127.0.0.1:1234/v1/playbooks/1");

    let playbook = Client::process_response(Ok(answer(200, "{}")), decoded(playbook(1))).unwrap().data.unwrap();

    assert_eq!(1, playbook.id);
    assert_eq!("Default", playbook.title);
    assert_eq!("First", playbook.description);
    assert_eq!("2016-01-19T20:50:26Z", playbook.created_at);
    assert_eq!("2016-01-19T20:50:26Z", playbook.updated_at);
}

#[test]
fn update_playbook_test() {
    let client = client();
    let playbook_id = 1;

    let payload = PlaybookPayload {
        title: String::from("Default"),
        description: String::from("First"),
        preface: Preface::registry("lead", "hub", "latest"),
    };

    let request = client.playbooks().update(playbook_id, payload.clone());
    signed(&request, "PATCH", "http://127.0.0.1:1234/v1/playbooks/1");
    assert!(matches!(&request.body, Some(Body::Playbook(sent)) if *sent == payload));
    let playbook = Client::process_response(Ok(answer(200, "{}")), decoded(playbook(1))).unwrap().data.unwrap();

    assert_eq!(1, playbook.id);
    assert_eq!("Default", playbook.title);
    assert_eq!("First", playbook.description);
}

#[test]
fn delete_playbook_test() {
    let client = client();
    let playbook_id = 1;
    signed(&client.playbooks().delete(playbook_id), "DELETE", "http://127.0.0.1:1234/v1/playbooks/1");

    let response = Client::call_empty(Ok(answer(204, "")));

    assert!(response.is_ok());
    assert_eq!(204, response.unwrap().status);
}

#[test]
fn get_playbook_events() {
    let client = client();
    let playbook_id = 1;

    let response = client.playbooks().events(playbook_id);

    assert_eq!(String::from("event stream (JSON)"), response);
}

#[test]
fn start_playbook_test() {
    let client = client();
    let playbook_id = 1;
    signed(&client.playbooks().start(playbook_id), "POST", "http://127.0.0.1:1234/v1/playbooks/1/actions/start");

    let response = Client::call_empty(Ok(answer(204, "")));

    assert!(response.is_ok());
    assert_eq!(204, response.unwrap().status);
}

#[test]
fn stop_playbook_test() {
    let client = client();
    let playbook_id = 1;
    signed(&client.playbooks().stop(playbook_id), "POST", "http://127.0.0.1:1234/v1/playbooks/1/actions/stop");

    let response = Client::call_empty(Ok(answer(204, "")));

    assert!(response.is_ok());
    assert_eq!(204, response.unwrap().status);
}

#[test]
fn id_paths_hold_the_decimal_numeral() {
    assert_eq!(id_path("/playbooks/", 0, "/actors"), "/playbooks/0/actors");
    assert_eq!(id_path("/actors/", 18446744073709551615, ""), "/actors/18446744073709551615");
    assert_eq!(id_path("", 1203, "x"), "1203x");
}

#[test]
fn an_answer_is_read_with_its_rate_limits() {
    let page = Pagination { current_page: 2, per_page: 2, total_entries: 5, total_pages: 3 };
    let body: serde_json::Value = serde_json::from_str("{\"data\":[1]}").unwrap();
    let members = Decoded { data: Some(vec![1u64]), pagination: Some(page), body: Some(body.clone()) };
    let response = Client::process_response(Ok(answer(200, "{\"data\":[1]}")), Ok(members)).unwrap();
    assert_eq!(
        response,
        Response {
            rate_limit: "2".to_string(),
            rate_limit_remaining: "2".to_string(),
            rate_limit_reset: Some("never".to_string()),
            status: 200,
            data: Some(vec![1u64]),
            pagination: Some(page),
            body: Some(body),
        }
    );
}

#[test]
fn header_names_are_compared_without_case() {
    let raw = RawResponse {
        status: 204,
        status_text: "No Content".to_string(),
        headers: vec![
            ("Content-Length".to_string(), "0".to_string()),
            ("X-RateLimit-Remaining".to_string(), "7".to_string()),
            ("X-RATELIMIT-LIMIT".to_string(), "9".to_string()),
            ("x-ratelimit-limit".to_string(), "10".to_string()),
        ],
        body: String::new(),
    };
    assert_eq!(raw.header("x-ratelimit-limit"), Some("9".to_string()));
    assert_eq!(raw.header("content-length"), Some("0".to_string()));
    assert_eq!(raw.header("x-ratelimit-after"), None);
    assert_eq!(raw.header("x-ratelimit-limi"), None);
    assert_eq!(
        Client::call_empty(Ok(raw)),
        Ok(EmptyResponse {
            rate_limit: "9".to_string(),
            rate_limit_remaining: "7".to_string(),
            rate_limit_reset: None,
            status: 204,
        })
    );
}

#[test]
fn an_answer_without_rate_limits_cannot_be_read() {
    let mut raw = answer(200, "{}");
    raw.headers.remove(1);
    assert_eq!(
        Client::call_empty(Ok(raw.clone())),
        Err(ClientError::Deserialization("Cannot parse the x-ratelimit-remaining header".to_string()))
    );
    assert_eq!(
        Client::process_response(Ok(raw.clone()), decoded(1u8)),
        Err(ClientError::Deserialization("Cannot parse the x-ratelimit-remaining header".to_string()))
    );
    raw.headers.remove(0);
    assert_eq!(
        Client::call_empty(Ok(raw.clone())),
        Err(ClientError::Deserialization("Cannot parse the x-ratelimit-limit header".to_string()))
    );
    // the headers are looked at before the body
    assert_eq!(
        Client::process_response::<u8>(Ok(raw), Err("broken body".to_string())),
        Err(ClientError::Deserialization("Cannot parse the x-ratelimit-limit header".to_string()))
    );
    assert_eq!(
        Client::process_response::<u8>(Ok(answer(200, "x")), Err("broken body".to_string())),
        Err(ClientError::Deserialization("broken body".to_string()))
    );
}

#[test]
fn a_failed_call_is_an_error() {
    assert_eq!(
        Client::call_empty(Err(Failure::Status(401, answer(401, "")))),
        Err(ClientError::Unauthorized)
    );
    assert_eq!(
        Client::process_response(Err(Failure::Status(503, answer(503, ""))), decoded(1u8)),
        Err(ClientError::ServiceUnavailable)
    );
    assert_eq!(
        Client::call_empty(Err(Failure::Transport("Connection refused".to_string(), "Connection Failed".to_string()))),
        Err(ClientError::Transport("Connection refused".to_string(), "Connection Failed".to_string()))
    );
    assert_eq!(
        Client::process_response(Err(Failure::Transport("a".to_string(), "b".to_string())), decoded(1u8)),
        Err(ClientError::Transport("a".to_string(), "b".to_string()))
    );
}
