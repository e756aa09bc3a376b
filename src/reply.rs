use vstd::prelude::*;

use crate::health::{HealthStatus, HealthView};
use crate::string_body::StringBody;
use crate::validator::{validate, validation, ValidationOutcome, ValidationView};

verus! {

pub const STATUS_OK: u16 = 200;

pub const STATUS_NOT_FOUND: u16 = 404;

pub const STATUS_UNPROCESSABLE_ENTITY: u16 = 422;

pub const STATUS_INTERNAL_SERVER_ERROR: u16 = 500;

/// What a reply carries.
pub enum ReplyBody {
    /// A key/value pair, sent as an object with the fields `key` and `value`.
    Pair(StringBody),
    /// An error, sent as an object with the single field `error`.
    Error(String),
    /// Plain text.
    Text(String),
}

/// A reply to a request: a status code and a body.
pub struct Reply {
    pub status: u16,
    pub body: ReplyBody,
}

/// Model of a [`ReplyBody`].
pub enum BodyView {
    Pair { key: Seq<char>, value: Seq<char> },
    Error { error: Seq<char> },
    Text { text: Seq<char> },
}

/// Model of a [`Reply`].
pub struct ReplyView {
    pub status: u16,
    pub body: BodyView,
}

impl View for ReplyBody {
    type V = BodyView;

    open spec fn view(&self) -> BodyView {
        match self {
            ReplyBody::Pair(p) => BodyView::Pair { key: p.key@, value: p.value@ },
            ReplyBody::Error(e) => BodyView::Error { error: e@ },
            ReplyBody::Text(t) => BodyView::Text { text: t@ },
        }
    }
}

impl View for Reply {
    type V = ReplyView;

    open spec fn view(&self) -> ReplyView {
        ReplyView { status: self.status, body: self.body@ }
    }
}

/// The pair that the greeting and the lookup of `hello` send.
pub open spec fn greeting_body() -> BodyView {
    BodyView::Pair { key: "hello"@, value: "world"@ }
}

/// The reply to the greeting request.
pub open spec fn greeting_reply() -> ReplyView {
    ReplyView { status: STATUS_OK, body: greeting_body() }
}

/// The reply to a lookup of `key`: the greeting pair for `hello`, a fixed server error for
/// `damn`, and "not found" for every other key.
pub open spec fn lookup_reply(key: Seq<char>) -> ReplyView {
    if key == "hello"@ {
        greeting_reply()
    } else if key == "damn"@ {
        ReplyView {
            status: STATUS_INTERNAL_SERVER_ERROR,
            body: BodyView::Error { error: "SERVER IS DOWN"@ },
        }
    } else {
        ReplyView { status: STATUS_NOT_FOUND, body: BodyView::Error { error: "NOT FOUND"@ } }
    }
}

/// The reply to a request that sets `(key, value)`: the pair echoed back when it is
/// accepted, an "unprocessable entity" error otherwise.
pub open spec fn set_reply(key: Seq<char>, value: Seq<char>) -> ReplyView {
    match validation(key, value) {
        ValidationView::Accepted { key, value } => ReplyView {
            status: STATUS_OK,
            body: BodyView::Pair { key, value },
        },
        ValidationView::Rejected { reason } => ReplyView {
            status: STATUS_UNPROCESSABLE_ENTITY,
            body: BodyView::Error { error: reason },
        },
    }
}

/// The message sent, in place of any cause, when the dependency is unhealthy.
pub open spec fn ping_failed_message() -> Seq<char> {
    "Failed to ping database"@
}

/// The reply to a health request, given the probe's status.
pub open spec fn health_reply(status: HealthView) -> ReplyView {
    match status {
        HealthView::Healthy { message } => ReplyView {
            status: STATUS_OK,
            body: BodyView::Text { text: message },
        },
        HealthView::Unhealthy { .. } => ReplyView {
            status: STATUS_INTERNAL_SERVER_ERROR,
            body: BodyView::Error { error: ping_failed_message() },
        },
    }
}

/// Answers the greeting request.
pub fn hello_world() -> (r: Reply)
    ensures
        r@ == greeting_reply(),
{
    Reply {
        status: STATUS_OK,
        body: ReplyBody::Pair(StringBody::new("hello".to_owned(), "world".to_owned())),
    }
}

/// Answers a lookup of `key`.
pub fn get_string(key: &str) -> (r: Reply)
    ensures
        r@ == lookup_reply(key@),
{
    let key = key.to_owned();
    if key == "hello".to_owned() {
        hello_world()
    } else if key == "damn".to_owned() {
        Reply {
            status: STATUS_INTERNAL_SERVER_ERROR,
            body: ReplyBody::Error("SERVER IS DOWN".to_owned()),
        }
    } else {
        Reply { status: STATUS_NOT_FOUND, body: ReplyBody::Error("NOT FOUND".to_owned()) }
    }
}

/// Answers a request that sets `candidate`, after validating it.
pub fn set_string(candidate: StringBody) -> (r: Reply)
    ensures
        r@ == set_reply(candidate.key@, candidate.value@),
{
    match validate(candidate) {
        ValidationOutcome::Accepted(pair) => Reply { status: STATUS_OK, body: ReplyBody::Pair(pair) },
        ValidationOutcome::Rejected(reason) => Reply {
            status: STATUS_UNPROCESSABLE_ENTITY,
            body: ReplyBody::Error(reason),
        },
    }
}

/// Answers a health request, given the status the probe reported.
pub fn ping_root(status: HealthStatus) -> (r: Reply)
    ensures
        r@ == health_reply(status@),
{
    match status {
        HealthStatus::Healthy(message) => Reply { status: STATUS_OK, body: ReplyBody::Text(message) },
        HealthStatus::Unhealthy(_) => Reply {
            status: STATUS_INTERNAL_SERVER_ERROR,
            body: ReplyBody::Error("Failed to ping database".to_owned()),
        },
    }
}

} // verus!
