//! The cache-aside protocol as decisions: what to do after each answer of
//! the cache store and of the upstream. The caller does the reading,
//! fetching and storing, and reports back.

use vstd::prelude::*;
use vstd::string::*;
use crate::error::{AppError, Failure};
use crate::json::{json_normal_form, normalize_json, status_line, status_text};
use crate::text::{decimal, decimal_text};
use crate::params::Params;

verus! {

/// A validated request: the key to read, and the call to make on a miss.
#[derive(Debug)]
pub struct Lookup {
    pub label: String,
    pub key: String,
    pub url: String,
    pub query: Params,
}

/// A [`Lookup`] as plain values.
pub struct Plan {
    pub label: Seq<char>,
    pub key: Seq<char>,
    pub url: Seq<char>,
    pub query: Map<Seq<char>, Seq<char>>,
}

impl Lookup {
    /// The query is a well-formed mapping.
    pub open spec fn wf(&self) -> bool {
        self.query.wf()
    }
}

/// The plan that a lookup holds.
pub open spec fn plan_of(lookup: Lookup) -> Plan {
    Plan { label: lookup.label@, key: lookup.key@, url: lookup.url@, query: lookup.query@ }
}

/// What the cache store answered to a read.
#[derive(Debug)]
pub enum CacheRead {
    /// The key holds this payload.
    Hit(String),
    /// The key holds nothing.
    Miss,
    /// The store could not be reached.
    Unavailable(String),
}

/// A [`CacheRead`] as plain values.
pub enum ReadModel {
    Hit(Seq<char>),
    Miss,
    Unavailable(Seq<char>),
}

impl View for CacheRead {
    type V = ReadModel;

    open spec fn view(&self) -> ReadModel {
        match self {
            CacheRead::Hit(p) => ReadModel::Hit(p@),
            CacheRead::Miss => ReadModel::Miss,
            CacheRead::Unavailable(m) => ReadModel::Unavailable(m@),
        }
    }
}

/// What came of the one call to the upstream.
#[derive(Debug)]
pub enum FetchReply {
    /// The upstream answered. `body` is the text of the answer's body, with
    /// a replacement character wherever its bytes were not UTF-8, and
    /// `body_is_utf8` says whether they all were.
    Http { status: u16, body: String, body_is_utf8: bool },
    /// The upstream answered, but the body of its answer could not be read.
    Unreadable { status: u16, reason: String },
    /// No answer came: the name did not resolve, the connection failed, or time ran out.
    Failed(String),
}

/// A [`FetchReply`] as plain values.
pub enum ReplyModel {
    Http { status: nat, body: Seq<char>, body_is_utf8: bool },
    Unreadable { status: nat, reason: Seq<char> },
    Failed(Seq<char>),
}

impl View for FetchReply {
    type V = ReplyModel;

    open spec fn view(&self) -> ReplyModel {
        match self {
            FetchReply::Http { status, body, body_is_utf8 } => ReplyModel::Http {
                status: *status as nat,
                body: body@,
                body_is_utf8: *body_is_utf8,
            },
            FetchReply::Unreadable { status, reason } => ReplyModel::Unreadable {
                status: *status as nat,
                reason: reason@,
            },
            FetchReply::Failed(m) => ReplyModel::Failed(m@),
        }
    }
}

/// What the cache store answered to a write.
#[derive(Debug)]
pub enum StoreAck {
    Stored,
    Unavailable(String),
}

/// A [`StoreAck`] as plain values.
pub enum AckModel {
    Stored,
    Unavailable(Seq<char>),
}

impl View for StoreAck {
    type V = AckModel;

    open spec fn view(&self) -> AckModel {
        match self {
            StoreAck::Stored => AckModel::Stored,
            StoreAck::Unavailable(m) => AckModel::Unavailable(m@),
        }
    }
}

/// What to do next.
#[derive(Debug)]
pub enum Step {
    /// Call the upstream.
    Fetch,
    /// Store `payload` under `key`, then report back.
    Store { key: String, payload: String },
    /// Answer the client with this document.
    Succeed(String),
    /// Answer the client with this failure.
    Fail(AppError),
}

/// A [`Step`] as plain values.
pub enum StepModel {
    Fetch,
    Store { key: Seq<char>, payload: Seq<char> },
    Succeed(Seq<char>),
    Fail(Failure),
}

impl View for Step {
    type V = StepModel;

    open spec fn view(&self) -> StepModel {
        match self {
            Step::Fetch => StepModel::Fetch,
            Step::Store { key, payload } => StepModel::Store { key: key@, payload: payload@ },
            Step::Succeed(d) => StepModel::Succeed(d@),
            Step::Fail(e) => StepModel::Fail(e@),
        }
    }
}

/// The message of a 2xx answer whose body is no JSON document.
pub open spec fn unreadable_body_text() -> Seq<char> {
    "error decoding response body"@
}

/// After a read, given what the payload of a hit parsed to: a hit whose
/// payload is a JSON document is the answer, as stored; a hit with anything
/// else is an internal failure; a miss leads to the upstream; an unreachable
/// store fails the request.
pub open spec fn read_step(read: ReadModel, parsed: Option<Seq<char>>) -> StepModel {
    match read {
        ReadModel::Hit(payload) => match parsed {
            Some(_) => StepModel::Succeed(payload),
            None => StepModel::Fail(Failure::Internal),
        },
        ReadModel::Miss => StepModel::Fetch,
        ReadModel::Unavailable(m) => StepModel::Fail(Failure::CacheUnavailable(m)),
    }
}

/// Whether a status is in the 2xx range.
pub open spec fn is_success(status: nat) -> bool {
    200 <= status <= 299
}

/// A status as it is shown in a message: written out with its reason
/// phrase where it is a status, else the bare number.
pub open spec fn shown_status(status: nat, written: Option<Seq<char>>) -> Seq<char> {
    match written {
        Some(line) => line,
        None => decimal(status),
    }
}

/// The refusal of the upstream called `label`.
pub open spec fn refusal(
    label: Seq<char>,
    status: nat,
    written: Option<Seq<char>>,
    body: Seq<char>,
) -> StepModel {
    StepModel::Fail(
        Failure::UpstreamApi { label, status, status_text: shown_status(status, written), body },
    )
}

/// After the upstream call, given what a body parsed to and how the status
/// is written out: a 2xx answer with a JSON body is stored, in its compact
/// form, under the key that was read; any other status is reported with the
/// upstream's label, the status and the body, the empty body where none
/// could be read; no answer, or a 2xx answer that cannot be read as JSON,
/// fails the request.
pub open spec fn fetch_step(
    key: Seq<char>,
    label: Seq<char>,
    reply: ReplyModel,
    parsed: Option<Seq<char>>,
    written: Option<Seq<char>>,
) -> StepModel {
    match reply {
        ReplyModel::Http { status, body, body_is_utf8 } => if is_success(status) {
            match parsed {
                Some(doc) => if body_is_utf8 {
                    StepModel::Store { key, payload: doc }
                } else {
                    StepModel::Fail(Failure::RequestFailed(unreadable_body_text()))
                },
                None => StepModel::Fail(Failure::RequestFailed(unreadable_body_text())),
            }
        } else {
            refusal(label, status, written, body)
        },
        ReplyModel::Unreadable { status, reason } => if is_success(status) {
            StepModel::Fail(Failure::RequestFailed(reason))
        } else {
            refusal(label, status, written, Seq::empty())
        },
        ReplyModel::Failed(m) => StepModel::Fail(Failure::RequestFailed(m)),
    }
}

/// The status of a reply, written out, if the upstream answered.
pub open spec fn reply_status_text(reply: ReplyModel) -> Option<Seq<char>> {
    match reply {
        ReplyModel::Http { status, body, body_is_utf8 } => status_text(status),
        ReplyModel::Unreadable { status, reason } => status_text(status),
        ReplyModel::Failed(_) => None,
    }
}

/// After the write: the document is the answer once it is stored; an
/// unreachable store fails the request.
pub open spec fn write_step(doc: Seq<char>, ack: AckModel) -> StepModel {
    match ack {
        AckModel::Stored => StepModel::Succeed(doc),
        AckModel::Unavailable(m) => StepModel::Fail(Failure::CacheUnavailable(m)),
    }
}

/// The payload of a hit, if the read was one.
pub open spec fn hit_payload(read: ReadModel) -> Option<Seq<char>> {
    match read {
        ReadModel::Hit(p) => Some(p),
        _ => None,
    }
}

/// The body of a reply, if the upstream answered and its body was read.
pub open spec fn reply_body(reply: ReplyModel) -> Option<Seq<char>> {
    match reply {
        ReplyModel::Http { status, body, body_is_utf8 } => Some(body),
        _ => None,
    }
}

/// The compact form of a text, where there is a text and it is a JSON document.
pub open spec fn parsed_form(text: Option<Seq<char>>) -> Option<Seq<char>> {
    match text {
        Some(t) => json_normal_form(t),
        None => None,
    }
}

/// Decides after a read, with the parse of a hit's payload in hand.
pub fn decide_after_read(read: CacheRead, parsed: Option<String>) -> (step: Step)
    ensures
        step@ == read_step(read@, option_text(parsed)),
{
    match read {
        CacheRead::Hit(payload) => match parsed {
            Some(_) => Step::Succeed(payload),
            None => Step::Fail(AppError::Internal),
        },
        CacheRead::Miss => Step::Fetch,
        CacheRead::Unavailable(m) => Step::Fail(AppError::CacheUnavailable(m)),
    }
}

/// The refusal of the upstream called `label`, with the status written out
/// as given, or as its bare number where it was not.
pub fn refuse(label: &str, status: u16, written: Option<String>, body: String) -> (step: Step)
    ensures
        step@ == refusal(label@, status as nat, option_text(written), body@),
{
    let status_text: String = match written {
        Some(line) => line,
        None => decimal_text(status),
    };
    Step::Fail(AppError::UpstreamApi { label: String::from_str(label), status, status_text, body })
}

/// Decides after the upstream call, with the parse of the body and the
/// written form of the status in hand.
pub fn decide_after_fetch(
    key: &str,
    label: &str,
    reply: FetchReply,
    parsed: Option<String>,
    written: Option<String>,
) -> (step: Step)
    ensures
        step@ == fetch_step(key@, label@, reply@, option_text(parsed), option_text(written)),
{
    match reply {
        FetchReply::Http { status, body, body_is_utf8 } => {
            if 200 <= status && status <= 299 {
                match parsed {
                    Some(doc) => {
                        if body_is_utf8 {
                            Step::Store { key: String::from_str(key), payload: doc }
                        } else {
                            Step::Fail(
                                AppError::RequestFailed(
                                    String::from_str("error decoding response body"),
                                ),
                            )
                        }
                    },
                    None => Step::Fail(
                        AppError::RequestFailed(String::from_str("error decoding response body")),
                    ),
                }
            } else {
                refuse(label, status, written, body)
            }
        },
        FetchReply::Unreadable { status, reason } => {
            if 200 <= status && status <= 299 {
                Step::Fail(AppError::RequestFailed(reason))
            } else {
                refuse(label, status, written, String::new())
            }
        },
        FetchReply::Failed(m) => Step::Fail(AppError::RequestFailed(m)),
    }
}

/// The text of an optional string.
pub open spec fn option_text(s: Option<String>) -> Option<Seq<char>> {
    match s {
        Some(t) => Some(t@),
        None => None,
    }
}

/// The step that follows a read of the cache.
pub fn after_read(read: CacheRead) -> (step: Step)
    ensures
        step@ == read_step(read@, parsed_form(hit_payload(read@))),
        !(step@ is Store),
{
    let parsed: Option<String> = match &read {
        CacheRead::Hit(payload) => normalize_json(payload.as_str()),
        _ => None,
    };
    decide_after_read(read, parsed)
}

/// The step that follows the call to the upstream for `lookup`. The
/// upstream is called once for a request: no step asks for a second call.
pub fn after_fetch(lookup: &Lookup, reply: FetchReply) -> (step: Step)
    ensures
        step@ == fetch_step(
            lookup.key@,
            lookup.label@,
            reply@,
            parsed_form(reply_body(reply@)),
            reply_status_text(reply@),
        ),
        step@ is Store || step@ is Fail,
{
    let parsed: Option<String> = match &reply {
        FetchReply::Http { status, body, body_is_utf8 } => {
            if 200 <= *status && *status <= 299 {
                normalize_json(body.as_str())
            } else {
                None
            }
        },
        _ => None,
    };
    let written: Option<String> = match &reply {
        FetchReply::Http { status, body, body_is_utf8 } => {
            if 200 <= *status && *status <= 299 {
                None
            } else {
                status_line(*status)
            }
        },
        FetchReply::Unreadable { status, reason } => {
            if 200 <= *status && *status <= 299 {
                None
            } else {
                status_line(*status)
            }
        },
        FetchReply::Failed(_) => None,
    };
    decide_after_fetch(lookup.key.as_str(), lookup.label.as_str(), reply, parsed, written)
}

/// The step that follows the write of `doc` to the cache.
pub fn after_write(doc: String, ack: StoreAck) -> (step: Step)
    ensures
        step@ == write_step(doc@, ack@),
        step@ is Succeed || step@ is Fail,
{
    match ack {
        StoreAck::Stored => Step::Succeed(doc),
        StoreAck::Unavailable(m) => Step::Fail(AppError::CacheUnavailable(m)),
    }
}

} // verus!
