use vstd::prelude::*;

use crate::error::ExecutionError;
use crate::method::verb_of;
use crate::request::{describes_call, plan_request, Header, OutboundCall, RequestDescription};
use crate::response::{
    header_map, lists_map, normalize_headers, raw_headers_view, status_line, status_line_of,
    RawHeader, ResponseDescription,
};

verus! {

/// Where one request/response exchange stands.
#[derive(Debug)]
pub enum Exchange {
    /// Nothing has been asked yet.
    Idle,
    /// The call went out; its response has not arrived.
    AwaitingResponse,
    /// Status and headers have arrived; the body is being read.
    AwaitingBody { status: u16, status_text: String, headers: Vec<Header> },
    /// The exchange has produced its outcome.
    Closed,
}

/// What the caller reports back to the exchange.
#[derive(Debug)]
pub enum Event {
    /// Start with this request.
    Begin(RequestDescription),
    /// The transport returned status and headers.
    Responded { status: u16, headers: Vec<RawHeader> },
    /// The transport could not deliver the call; the text is its message.
    SendFailed(String),
    /// The body was read, `elapsed_ms` after the call was dispatched.
    BodyRead { body: String, elapsed_ms: u128 },
    /// The body could not be read as text; the text is the transport's message.
    BodyFailed(String),
}

/// What the caller is to do next.
#[derive(Debug)]
pub enum Action {
    /// Start the clock and send this call.
    Dispatch(OutboundCall),
    /// Read the whole response body as text.
    ReadBody,
    /// The exchange is over, with this outcome.
    Complete(Result<ResponseDescription, ExecutionError>),
    /// The event does not fit the current state; nothing to do.
    Ignore,
}

/// `a` ends the exchange with a transport error whose text is `msg`.
pub open spec fn is_transport_error(a: Action, msg: Seq<char>) -> bool {
    &&& a matches Action::Complete(Err(ExecutionError::TransportError(m)))
    &&& m@ == msg
}

impl Exchange {
    pub fn new() -> (r: Exchange)
        ensures
            r is Idle,
    {
        Exchange::Idle
    }

    /// Moves the exchange on by one event and says what to do next.
    pub fn step(self, event: Event) -> (r: (Exchange, Action))
        ensures
            r.1 is Dispatch ==> self is Idle && (event matches Event::Begin(req) && verb_of(
                req.method@,
            ) is Some),
            r.1 matches Action::Complete(Ok(_)) ==> self is AwaitingBody && event is BodyRead,
            match (self, event) {
                (Exchange::Idle, Event::Begin(req)) => match verb_of(req.method@) {
                    None => {
                        &&& r.0 is Closed
                        &&& r.1 matches Action::Complete(Err(ExecutionError::InvalidMethod))
                    },
                    Some(v) => {
                        &&& r.0 is AwaitingResponse
                        &&& r.1 matches Action::Dispatch(c)
                        &&& describes_call(c, req, v)
                    },
                },
                (Exchange::AwaitingResponse, Event::SendFailed(m)) => r.0 is Closed
                    && is_transport_error(r.1, m@),
                (Exchange::AwaitingResponse, Event::Responded { status, headers }) => if 100
                    <= status <= 999 {
                    &&& r.0 matches Exchange::AwaitingBody { status: s, status_text, headers: hs }
                    &&& s == status
                    &&& status_text@ == status_line_of(status)
                    &&& lists_map(hs@, header_map(raw_headers_view(headers@)))
                    &&& r.1 is ReadBody
                } else {
                    r.0 is Closed && is_transport_error(r.1, "invalid status code"@)
                },
                (
                    Exchange::AwaitingBody { status, status_text, headers },
                    Event::BodyRead { body, elapsed_ms },
                ) => {
                    &&& r.0 is Closed
                    &&& r.1 matches Action::Complete(Ok(resp))
                    &&& resp.status == status
                    &&& resp.status_text == status_text
                    &&& resp.headers == headers
                    &&& resp.body == body
                    &&& resp.duration == elapsed_ms
                },
                (Exchange::AwaitingBody { .. }, Event::BodyFailed(m)) => r.0 is Closed
                    && is_transport_error(r.1, m@),
                _ => r.0 == self && r.1 is Ignore,
            },
    {
        match (self, event) {
            (Exchange::Idle, Event::Begin(req)) => match plan_request(req) {
                Ok(call) => (Exchange::AwaitingResponse, Action::Dispatch(call)),
                Err(e) => (Exchange::Closed, Action::Complete(Err(e))),
            },
            (Exchange::AwaitingResponse, Event::SendFailed(m)) => (
                Exchange::Closed,
                Action::Complete(Err(ExecutionError::TransportError(m))),
            ),
            (Exchange::AwaitingResponse, Event::Responded { status, headers }) => {
                match status_line(status) {
                    Ok(status_text) => {
                        let headers = normalize_headers(&headers);
                        (Exchange::AwaitingBody { status, status_text, headers }, Action::ReadBody)
                    },
                    Err(m) => (
                        Exchange::Closed,
                        Action::Complete(Err(ExecutionError::TransportError(m))),
                    ),
                }
            },
            (
                Exchange::AwaitingBody { status, status_text, headers },
                Event::BodyRead { body, elapsed_ms },
            ) => {
                let resp = ResponseDescription {
                    status,
                    status_text,
                    headers,
                    body,
                    duration: elapsed_ms,
                };
                (Exchange::Closed, Action::Complete(Ok(resp)))
            },
            (Exchange::AwaitingBody { .. }, Event::BodyFailed(m)) => (
                Exchange::Closed,
                Action::Complete(Err(ExecutionError::TransportError(m))),
            ),
            (state, _) => (state, Action::Ignore),
        }
    }
}

} // verus!
