//! Requests and replies as plain values. The library says what to send and
//! judges what came back; sending is the caller's part.

use vstd::prelude::*;

verus! {

/// A request to `GET` an address, with one header. The library asks for
/// nothing but `GET`s.
#[derive(Clone, Debug, PartialEq, Eq)]
pub struct GetRequest {
    pub url: String,
    pub header_name: String,
    pub header_value: String,
    /// The time in seconds after which the request is given up, where it has a
    /// limit of its own.
    pub timeout_seconds: Option<u64>,
}

/// The mathematical value of a [`GetRequest`].
pub ghost struct GetRequestView {
    pub url: Seq<char>,
    pub header_name: Seq<char>,
    pub header_value: Seq<char>,
    pub timeout_seconds: Option<u64>,
}

impl View for GetRequest {
    type V = GetRequestView;

    open spec fn view(&self) -> GetRequestView {
        GetRequestView {
            url: self.url@,
            header_name: self.header_name@,
            header_value: self.header_value@,
            timeout_seconds: self.timeout_seconds,
        }
    }
}

/// How a request ended.
#[derive(Clone, Debug, PartialEq, Eq)]
pub enum HttpReply {
    /// No response arrived: the name was not resolved, the connection or the
    /// handshake failed, or the time ran out.
    Failed { cause: String },
    /// A response arrived.
    Received { status: u16, body: String },
}

/// The mathematical value of an [`HttpReply`].
pub ghost enum HttpReplyView {
    Failed { cause: Seq<char> },
    Received { status: u16, body: Seq<char> },
}

impl View for HttpReply {
    type V = HttpReplyView;

    open spec fn view(&self) -> HttpReplyView {
        match self {
            HttpReply::Failed { cause } => HttpReplyView::Failed { cause: cause@ },
            HttpReply::Received { status, body } => HttpReplyView::Received {
                status: *status,
                body: body@,
            },
        }
    }
}

/// The status is one of the success codes, 200 to 299.
pub open spec fn is_success(status: u16) -> bool {
    200 <= status <= 299
}

/// Tells whether a status is one of the success codes, 200 to 299.
pub fn status_is_success(status: u16) -> (success: bool)
    ensures
        success == is_success(status),
{
    200 <= status && status <= 299
}

} // verus!
