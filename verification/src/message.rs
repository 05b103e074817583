//! The plain values that cross the library's edge: requests, responses, the
//! events to be logged, and the failures a request can end in.

use vstd::prelude::*;

verus! {

/// Status of the response that answers a request found malicious.
pub const REJECTION_STATUS: u16 = 403;

/// Status of the response to a body that is not a JSON document.
pub const MALFORMED_BODY_STATUS: u16 = 400;

/// Status of the response when the inbound body could not be read.
pub const READ_FAILURE_STATUS: u16 = 500;

/// Status of the response when the backend could not be reached.
pub const FORWARD_FAILURE_STATUS: u16 = 502;

/// A request as it arrived: the method, the URI (path and query) and the
/// collected body. Inbound headers are read by the transport and not kept.
#[derive(Clone, Debug, PartialEq, Eq)]
pub struct InboundRequest {
    pub method: String,
    pub uri: String,
    pub body: Vec<u8>,
}

/// A request rebuilt for the backend. It carries no headers of the inbound
/// request.
#[derive(Clone, Debug, PartialEq, Eq)]
pub struct OutboundRequest {
    pub method: String,
    pub uri: String,
    pub body: String,
}

/// What an `OutboundRequest` holds, as mathematical text.
pub struct OutboundView {
    pub method: Seq<char>,
    pub uri: Seq<char>,
    pub body: Seq<char>,
}

impl View for OutboundRequest {
    type V = OutboundView;

    open spec fn view(&self) -> OutboundView {
        OutboundView { method: self.method@, uri: self.uri@, body: self.body@ }
    }
}

/// A response handed to the client: the backend's own, or one made here.
#[derive(Clone, Debug, PartialEq, Eq)]
pub struct ProxyResponse {
    pub status: u16,
    pub headers: Vec<(String, Vec<u8>)>,
    pub body: Vec<u8>,
}

/// What a `ProxyResponse` holds.
pub struct ResponseView {
    pub status: u16,
    pub headers: Seq<(Seq<char>, Seq<u8>)>,
    pub body: Seq<u8>,
}

impl View for ProxyResponse {
    type V = ResponseView;

    open spec fn view(&self) -> ResponseView {
        ResponseView {
            status: self.status,
            headers: self.headers.deep_view(),
            body: self.body@,
        }
    }
}

/// The response that carries a status and nothing else.
pub open spec fn bare_response(status: u16) -> ResponseView {
    ResponseView { status, headers: Seq::empty(), body: Seq::empty() }
}

impl ProxyResponse {
    /// A response with the given status, no headers and an empty body.
    pub fn bare(status: u16) -> (r: ProxyResponse)
        ensures
            r@ == bare_response(status),
    {
        let r = ProxyResponse { status, headers: Vec::new(), body: Vec::new() };
        assert(r.headers.deep_view() =~= Seq::empty());
        assert(r.body@ =~= Seq::empty());
        r
    }
}

/// How loudly an event is to be logged.
#[derive(Clone, Copy, Debug, PartialEq, Eq, Structural)]
pub enum Level {
    Critical,
    Error,
    Warning,
    Info,
}

/// Something the caller is to write to its log.
#[derive(Clone, Debug, PartialEq, Eq)]
pub enum LogEvent {
    /// A request was found malicious and rejected; `body` is its canonical
    /// text, kept for audit.
    Rejected { body: String },
    /// A request was found innocent and is sent on to `uri`.
    Forwarding { uri: String },
    /// The same URI was seen before, and last with the same method.
    Duplicate { uri: String, method: String },
    /// The backend at `uri` could not be reached.
    ForwardFailed { uri: String, cause: String },
}

/// What a `LogEvent` holds, as mathematical text.
pub enum EventView {
    Rejected { body: Seq<char> },
    Forwarding { uri: Seq<char> },
    Duplicate { uri: Seq<char>, method: Seq<char> },
    ForwardFailed { uri: Seq<char>, cause: Seq<char> },
}

impl View for LogEvent {
    type V = EventView;

    open spec fn view(&self) -> EventView {
        match self {
            LogEvent::Rejected { body } => EventView::Rejected { body: body@ },
            LogEvent::Forwarding { uri } => EventView::Forwarding { uri: uri@ },
            LogEvent::Duplicate { uri, method } => EventView::Duplicate {
                uri: uri@,
                method: method@,
            },
            LogEvent::ForwardFailed { uri, cause } => EventView::ForwardFailed {
                uri: uri@,
                cause: cause@,
            },
        }
    }
}

/// The level each kind of event is logged at.
pub open spec fn level_of(event: EventView) -> Level {
    match event {
        EventView::Rejected { .. } => Level::Critical,
        EventView::Forwarding { .. } => Level::Info,
        EventView::Duplicate { .. } => Level::Warning,
        EventView::ForwardFailed { .. } => Level::Error,
    }
}

impl LogEvent {
    /// The level this event is logged at.
    pub fn level(&self) -> (r: Level)
        ensures
            r == level_of(self@),
    {
        match self {
            LogEvent::Rejected { .. } => Level::Critical,
            LogEvent::Forwarding { .. } => Level::Info,
            LogEvent::Duplicate { .. } => Level::Warning,
            LogEvent::ForwardFailed { .. } => Level::Error,
        }
    }
}

/// The ways a request can fail inside the proxy. A backend's own error
/// status is not among them: it is passed through like any other response.
#[derive(Clone, Copy, Debug, PartialEq, Eq, Structural)]
pub enum ProxyError {
    /// The body is not a JSON document.
    MalformedBody,
    /// The inbound body could not be read to its end.
    TransportRead,
    /// The backend could not be reached, or the connection to it broke.
    ForwardTransport,
}

/// The status that answers each failure.
pub open spec fn status_of(error: ProxyError) -> u16 {
    match error {
        ProxyError::MalformedBody => MALFORMED_BODY_STATUS,
        ProxyError::TransportRead => READ_FAILURE_STATUS,
        ProxyError::ForwardTransport => FORWARD_FAILURE_STATUS,
    }
}

impl ProxyError {
    /// The status that answers this failure: a client error for a malformed
    /// body, a server error otherwise, and never the rejection status.
    pub fn status(&self) -> (r: u16)
        ensures
            r == status_of(*self),
            r != REJECTION_STATUS,
            *self == ProxyError::MalformedBody ==> 400 <= r < 500,
            *self != ProxyError::MalformedBody ==> 500 <= r < 600,
    {
        match self {
            ProxyError::MalformedBody => MALFORMED_BODY_STATUS,
            ProxyError::TransportRead => READ_FAILURE_STATUS,
            ProxyError::ForwardTransport => FORWARD_FAILURE_STATUS,
        }
    }

    /// The response that answers this failure.
    pub fn response(&self) -> (r: ProxyResponse)
        ensures
            r@ == bare_response(status_of(*self)),
    {
        ProxyResponse::bare(self.status())
    }
}

} // verus!
