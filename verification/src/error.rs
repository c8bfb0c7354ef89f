//! The kinds of failure of a request, and what a client is told of each.

use vstd::prelude::*;
use vstd::string::*;
use crate::json::{encode_json_string, json_string_text};
use crate::text::{decimal, decimal_text};

verus! {

/// Why a request failed.
#[derive(Debug, Clone)]
pub enum AppError {
    /// The resource asked for is not on the allow-list; holds the message.
    Validation(String),
    /// The client has used up its allowance of requests.
    RateLimited,
    /// The upstream called `label` answered outside the 2xx range;
    /// `status_text` is the status as it is written out.
    UpstreamApi { label: String, status: u16, status_text: String, body: String },
    /// The upstream could not be reached, or its answer could not be read.
    RequestFailed(String),
    /// The cache store could not be reached.
    CacheUnavailable(String),
    /// A stored payload was unreadable.
    Internal,
}

/// An [`AppError`] as plain values.
pub enum Failure {
    Validation(Seq<char>),
    RateLimited,
    UpstreamApi { label: Seq<char>, status: nat, status_text: Seq<char>, body: Seq<char> },
    RequestFailed(Seq<char>),
    CacheUnavailable(Seq<char>),
    Internal,
}

impl View for AppError {
    type V = Failure;

    open spec fn view(&self) -> Failure {
        match self {
            AppError::Validation(m) => Failure::Validation(m@),
            AppError::RateLimited => Failure::RateLimited,
            AppError::UpstreamApi { label, status, status_text, body } => Failure::UpstreamApi {
                label: label@,
                status: *status as nat,
                status_text: status_text@,
                body: body@,
            },
            AppError::RequestFailed(m) => Failure::RequestFailed(m@),
            AppError::CacheUnavailable(m) => Failure::CacheUnavailable(m@),
            AppError::Internal => Failure::Internal,
        }
    }
}

/// The HTTP status that answers a failure: 4xx for the client's faults,
/// 502 for the upstream's, 500 for the gateway's own.
pub open spec fn failure_status(f: Failure) -> nat {
    match f {
        Failure::Validation(_) => 400,
        Failure::RateLimited => 429,
        Failure::UpstreamApi { .. } => 502,
        Failure::RequestFailed(_) => 502,
        Failure::CacheUnavailable(_) => 500,
        Failure::Internal => 500,
    }
}

/// The message that answers a failure.
pub open spec fn failure_message(f: Failure) -> Seq<char> {
    match f {
        Failure::Validation(m) => m,
        Failure::RateLimited => "Too many requests"@,
        Failure::UpstreamApi { label, status, status_text, body } => label
            + " API returned status "@ + status_text + ": "@ + body,
        Failure::RequestFailed(m) => m,
        Failure::CacheUnavailable(m) => m,
        Failure::Internal => "Internal server error"@,
    }
}

impl AppError {
    /// The HTTP status of the response that reports this failure.
    pub fn status_code(&self) -> (code: u16)
        ensures
            code == failure_status(self@),
    {
        match self {
            AppError::Validation(_) => 400,
            AppError::RateLimited => 429,
            AppError::UpstreamApi { .. } => 502,
            AppError::RequestFailed(_) => 502,
            AppError::CacheUnavailable(_) => 500,
            AppError::Internal => 500,
        }
    }

    /// The human-readable message of the response that reports this failure.
    pub fn message(&self) -> (text: String)
        ensures
            text@ == failure_message(self@),
    {
        match self {
            AppError::Validation(m) => m.clone(),
            AppError::RateLimited => String::from_str("Too many requests"),
            AppError::UpstreamApi { label, status, status_text, body } => {
                let mut text: String = label.clone();
                text.append(" API returned status ");
                text.append(status_text.as_str());
                text.append(": ");
                text.append(body.as_str());
                text
            },
            AppError::RequestFailed(m) => m.clone(),
            AppError::CacheUnavailable(m) => m.clone(),
            AppError::Internal => String::from_str("Internal server error"),
        }
    }
}

/// The body of the response that reports a failure, from the message as a
/// JSON string literal and the status: `{"error":"...","status":400}`.
pub open spec fn body_text(encoded_message: Seq<char>, status: nat) -> Seq<char> {
    "{\"error\":"@ + encoded_message + ",\"status\":"@ + decimal(status) + "}"@
}

/// Writes the body of a failure's response around a message that is
/// already a JSON string literal.
pub fn error_body(encoded_message: &str, status: u16) -> (body: String)
    ensures
        body@ == body_text(encoded_message@, status as nat),
{
    let mut body: String = String::from_str("{\"error\":");
    body.append(encoded_message);
    body.append(",\"status\":");
    let code: String = decimal_text(status);
    body.append(code.as_str());
    body.append("}");
    body
}

impl AppError {
    /// The JSON body of the response that reports this failure: the
    /// message and the numeric status.
    pub fn response_body(&self) -> (body: String)
        ensures
            body@ == body_text(
                json_string_text(failure_message(self@)),
                failure_status(self@),
            ),
    {
        let message: String = self.message();
        let encoded: String = encode_json_string(message.as_str());
        error_body(encoded.as_str(), self.status_code())
    }
}

} // verus!
