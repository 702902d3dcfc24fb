//! What the remote API can answer in place of a result.

use vstd::prelude::*;
use crate::client::client::RawResponse;
use crate::client::json::{json_member, json_parse, json_parsed, json_string_member, json_strings};
use crate::text::{decimal, number};

verus! {

/// A failed API call.
#[derive(Clone, Debug, PartialEq, Eq)]
pub enum ClientError {
    Unauthorized,
    BadGateway,
    BadRequest { message: String, attribute_errors: Option<serde_json::Value> },
    GatewayTimeout(String),
    MethodNotAllowed,
    NotFound(String),
    PaymentRequired,
    PreconditionRequired(String),
    ServiceUnavailable,
    TooManyRequests,
    Transport(String, String),
    Deserialization(String),
}

/// The message among the string members of an answer: the string under
/// `message`, or a fixed text where there is none.
pub open spec fn message_among(strings: Map<Seq<char>, Seq<char>>) -> Seq<char> {
    if strings.contains_key("message"@) {
        strings["message"@]
    } else {
        "Unable to parse error message"@
    }
}

/// The message that an answer carries.
pub open spec fn message_text(json: serde_json::Value) -> Seq<char> {
    message_among(json_strings(json))
}

/// Whether `error` is what the answer to a failed call stands for. A status
/// code with a fixed meaning stands for it; a bad request, a missing
/// resource, a missing precondition and a gateway that timed out carry the
/// message of the body, or fail to be read where the body is no JSON; every
/// other answer is a transport error of the status that the answer itself
/// carries.
pub open spec fn stands_for(code: u16, response: RawResponse, error: ClientError) -> bool {
    if fixed_error(code) is Some {
        error == fixed_error(code)->Some_0
    } else if reads_body(code) {
        match json_parsed(response.body@) {
            None => error is Deserialization,
            Some(strings) => if code == 400 {
                error matches ClientError::BadRequest { message, attribute_errors } && message@ == message_among(
                    strings,
                ) && attribute_errors is Some
            } else if code == 404 {
                error matches ClientError::NotFound(message) && message@ == message_among(strings)
            } else if code == 428 {
                error matches ClientError::PreconditionRequired(message) && message@ == message_among(strings)
            } else {
                error matches ClientError::GatewayTimeout(message) && message@ == message_among(strings)
            },
        }
    } else {
        error matches ClientError::Transport(status, text) && status@ == decimal(response.status as nat) && text@
            == response.status_text@
    }
}

/// Whether the answer to a failed call of this status code is read for a
/// message.
pub open spec fn reads_body(code: u16) -> bool {
    code == 400 || code == 404 || code == 428 || code == 504
}

/// The failure that a status code alone stands for, where it is one.
pub open spec fn fixed_error(code: u16) -> Option<ClientError> {
    if code == 401 {
        Some(ClientError::Unauthorized)
    } else if code == 402 {
        Some(ClientError::PaymentRequired)
    } else if code == 405 {
        Some(ClientError::MethodNotAllowed)
    } else if code == 429 {
        Some(ClientError::TooManyRequests)
    } else if code == 502 {
        Some(ClientError::BadGateway)
    } else if code == 503 {
        Some(ClientError::ServiceUnavailable)
    } else {
        None
    }
}

impl ClientError {
    /// The failure that the answer to a failed call stands for.
    pub fn parse_response(code: u16, response: RawResponse) -> (error: ClientError)
        ensures
            stands_for(code, response, error),
    {
        if code == 400 {
            Self::bad_request(response)
        } else if code == 401 {
            ClientError::Unauthorized
        } else if code == 402 {
            ClientError::PaymentRequired
        } else if code == 404 {
            Self::not_found(response)
        } else if code == 405 {
            ClientError::MethodNotAllowed
        } else if code == 428 {
            Self::precondition_required(response)
        } else if code == 429 {
            ClientError::TooManyRequests
        } else if code == 502 {
            ClientError::BadGateway
        } else if code == 503 {
            ClientError::ServiceUnavailable
        } else if code == 504 {
            Self::gateway_timeout(response)
        } else {
            ClientError::Transport(number(response.status as u64), response.status_text)
        }
    }

    /// The failure that a broken transport stands for.
    pub fn parse_transport(message: String, kind: String) -> (error: ClientError)
        ensures
            error == ClientError::Transport(message, kind),
    {
        ClientError::Transport(message, kind)
    }

    /// The failure of a bad request, from the body of the answer as it was
    /// parsed.
    pub fn bad_request_from(parsed: Result<serde_json::Value, String>) -> (error: ClientError)
        ensures
            match parsed {
                Ok(json) => error matches ClientError::BadRequest { message, attribute_errors } && message@
                    == message_text(json) && attribute_errors is Some,
                Err(text) => error == ClientError::Deserialization(text),
            },
    {
        match parsed {
            Ok(json) => ClientError::BadRequest {
                message: Self::message_in(&json),
                attribute_errors: Some(json_member(&json, "errors")),
            },
            Err(text) => ClientError::Deserialization(text),
        }
    }

    /// The failure of a gateway that timed out, from the parsed body.
    pub fn gateway_timeout_from(parsed: Result<serde_json::Value, String>) -> (error: ClientError)
        ensures
            match parsed {
                Ok(json) => error matches ClientError::GatewayTimeout(message) && message@ == message_text(json),
                Err(text) => error == ClientError::Deserialization(text),
            },
    {
        match parsed {
            Ok(json) => ClientError::GatewayTimeout(Self::message_in(&json)),
            Err(text) => ClientError::Deserialization(text),
        }
    }

    /// The failure of something that was not found, from the parsed body.
    pub fn not_found_from(parsed: Result<serde_json::Value, String>) -> (error: ClientError)
        ensures
            match parsed {
                Ok(json) => error matches ClientError::NotFound(message) && message@ == message_text(json),
                Err(text) => error == ClientError::Deserialization(text),
            },
    {
        match parsed {
            Ok(json) => ClientError::NotFound(Self::message_in(&json)),
            Err(text) => ClientError::Deserialization(text),
        }
    }

    /// The failure of a missing precondition, from the parsed body.
    pub fn precondition_required_from(parsed: Result<serde_json::Value, String>) -> (error: ClientError)
        ensures
            match parsed {
                Ok(json) => error matches ClientError::PreconditionRequired(message) && message@ == message_text(
                    json,
                ),
                Err(text) => error == ClientError::Deserialization(text),
            },
    {
        match parsed {
            Ok(json) => ClientError::PreconditionRequired(Self::message_in(&json)),
            Err(text) => ClientError::Deserialization(text),
        }
    }

    fn bad_request(response: RawResponse) -> (error: ClientError)
        ensures
            stands_for(400, response, error),
    {
        Self::bad_request_from(Self::response_to_json(response))
    }

    fn gateway_timeout(response: RawResponse) -> (error: ClientError)
        ensures
            stands_for(504, response, error),
    {
        Self::gateway_timeout_from(Self::response_to_json(response))
    }

    fn not_found(response: RawResponse) -> (error: ClientError)
        ensures
            stands_for(404, response, error),
    {
        Self::not_found_from(Self::response_to_json(response))
    }

    fn precondition_required(response: RawResponse) -> (error: ClientError)
        ensures
            stands_for(428, response, error),
    {
        Self::precondition_required_from(Self::response_to_json(response))
    }

    fn message_in(json: &serde_json::Value) -> (message: String)
        ensures
            message@ == message_text(*json),
    {
        match json_string_member(json, "message") {
            None => String::from_str("Unable to parse error message"),
            Some(json_string) => json_string,
        }
    }

    fn response_to_json(response: RawResponse) -> (res: Result<serde_json::Value, String>)
        ensures
            res is Ok <==> json_parsed(response.body@) is Some,
            res matches Ok(value) ==> Some(json_strings(value)) == json_parsed(response.body@),
    {
        json_parse(response.body.as_str())
    }

    /// The text the failure displays as.
    pub open spec fn display(self) -> Seq<char> {
        match self {
            ClientError::Unauthorized => "Authentication failed"@,
            ClientError::BadGateway => "Bad Gateway"@,
            ClientError::BadRequest { message, attribute_errors } => message@,
            ClientError::GatewayTimeout(message) => message@,
            ClientError::MethodNotAllowed => "Method not Allowed"@,
            ClientError::NotFound(message) => message@,
            ClientError::PaymentRequired => "Your account is not subscribed or ot in good stading"@,
            ClientError::PreconditionRequired(message) => message@,
            ClientError::ServiceUnavailable => "Service Unavailable"@,
            ClientError::TooManyRequests => "You exceeded the allowed number of requests per hour and your request has temporarily been throttled."@,
            ClientError::Transport(status, text) => "Transport Error - "@ + status@ + "("@ + text@ + ")"@,
            ClientError::Deserialization(text) => "Deserialization Error "@ + text@,
        }
    }

    /// The text the failure displays as.
    pub fn to_string(&self) -> (text: String)
        ensures
            text@ == self.display(),
    {
        match self {
            ClientError::Unauthorized => String::from_str("Authentication failed"),
            ClientError::BadGateway => String::from_str("Bad Gateway"),
            ClientError::BadRequest { message, attribute_errors } => message.clone(),
            ClientError::GatewayTimeout(message) => message.clone(),
            ClientError::MethodNotAllowed => String::from_str("Method not Allowed"),
            ClientError::NotFound(message) => message.clone(),
            ClientError::PaymentRequired => String::from_str("Your account is not subscribed or ot in good stading"),
            ClientError::PreconditionRequired(message) => message.clone(),
            ClientError::ServiceUnavailable => String::from_str("Service Unavailable"),
            ClientError::TooManyRequests => String::from_str(
                "You exceeded the allowed number of requests per hour and your request has temporarily been throttled.",
            ),
            ClientError::Transport(status, text) => String::from_str("Transport Error - ").concat(
                status.as_str(),
            ).concat("(").concat(text.as_str()).concat(")"),
            ClientError::Deserialization(text) => String::from_str("Deserialization Error ").concat(text.as_str()),
        }
    }
}

} // verus!
