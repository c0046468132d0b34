//! What the service sends back: a payload with status 200, or nothing with
//! status 404.

use vstd::prelude::*;
use crate::json::{health_json, hello_json};
use crate::payload::{HealthCheck, HealthCheckView, HelloResponse, HelloResponseView};

verus! {

/// The answer to one request.
#[derive(Debug, Clone, PartialEq, Eq)]
pub enum Reply {
    /// A health report.
    Health(HealthCheck),
    /// A greeting.
    Greeting(HelloResponse),
    /// No route took the request.
    NotFound,
}

/// A `Reply` over the views of its payloads.
pub enum ReplyView {
    Health(HealthCheckView),
    Greeting(HelloResponseView),
    NotFound,
}

impl ReplyView {
    /// 200 with a payload, 404 without.
    pub open spec fn status_code(self) -> int {
        match self {
            ReplyView::NotFound => 404,
            _ => 200,
        }
    }

    /// Whether the status is one of the 2xx codes.
    pub open spec fn is_success(self) -> bool {
        200 <= self.status_code() < 300
    }

    /// The body: the payload as JSON, and no body at all without a payload.
    pub open spec fn body_text(self) -> Seq<char> {
        match self {
            ReplyView::Health(report) => health_json(report),
            ReplyView::Greeting(greeting) => hello_json(greeting),
            ReplyView::NotFound => Seq::empty(),
        }
    }

    /// The media type of the body, where there is one.
    pub open spec fn media_type(self) -> Option<Seq<char>> {
        match self {
            ReplyView::NotFound => None,
            _ => Some("application/json"@),
        }
    }
}

impl View for Reply {
    type V = ReplyView;

    open spec fn view(&self) -> ReplyView {
        match self {
            Reply::Health(report) => ReplyView::Health(report@),
            Reply::Greeting(greeting) => ReplyView::Greeting(greeting@),
            Reply::NotFound => ReplyView::NotFound,
        }
    }
}

impl Reply {
    /// The HTTP status code.
    pub fn status(&self) -> (code: u16)
        ensures
            code == self@.status_code(),
    {
        match self {
            Reply::NotFound => 404,
            _ => 200,
        }
    }

    /// The value of the `Content-Type` header, if the reply has a body.
    pub fn content_type(&self) -> (media: Option<&'static str>)
        ensures
            match media {
                Some(name) => self@.media_type() == Some(name@),
                None => self@.media_type() is None,
            },
    {
        match self {
            Reply::NotFound => None,
            _ => Some("application/json"),
        }
    }

    /// The body as it goes on the wire.
    pub fn body(&self) -> (text: String)
        ensures
            text@ == self@.body_text(),
    {
        match self {
            Reply::Health(report) => report.to_json(),
            Reply::Greeting(greeting) => greeting.to_json(),
            Reply::NotFound => String::new(),
        }
    }
}

} // verus!
