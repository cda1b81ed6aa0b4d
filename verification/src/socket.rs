//! The lines exchanged over niri's IPC socket: each request is written as
//! one line of JSON, and each reply and event arrives as one.

use crate::state::{NiriEvent, NiriResponse};
use crate::types::{NiriWindow, NiriWorkspace};
use niri_ipc::{Event, Reply, Response};
use vstd::prelude::*;
use vstd::string::*;

verus! {

/// The requests the bar sends to the compositor.
#[derive(Debug, Clone, Copy, PartialEq, Eq, Structural)]
pub enum NiriRequest {
    /// Turn the connection into a stream of events.
    EventStream,
    /// Ask for all windows.
    Windows,
    /// Ask for all workspaces.
    Workspaces,
}

/// A request as niri's IPC protocol writes it: a request without data is the
/// JSON string of its name.
pub open spec fn request_json(request: NiriRequest) -> Seq<char> {
    match request {
        NiriRequest::EventStream => "\"EventStream\""@,
        NiriRequest::Windows => "\"Windows\""@,
        NiriRequest::Workspaces => "\"Workspaces\""@,
    }
}

/// The line that carries a request over the socket: its JSON and a newline.
pub open spec fn request_line_text(request: NiriRequest) -> Seq<char> {
    request_json(request).push('\n')
}

/// Serializes the request with `serde_json::to_string`, as the `niri_ipc`
/// type it stands for. Claimed of the call: a variant without data is
/// written as the JSON string of the variant's name (serde's unit-variant
/// path in `serde_json`, which writes into a `Vec<u8>` and cannot fail there).
#[verifier::external_body]
fn encode_request(request: NiriRequest) -> (json: String)
    ensures
        json@ == request_json(request),
{
    let request = match request {
        NiriRequest::EventStream => niri_ipc::Request::EventStream,
        NiriRequest::Windows => niri_ipc::Request::Windows,
        NiriRequest::Workspaces => niri_ipc::Request::Workspaces,
    };
    match serde_json::to_string(&request) {
        Ok(json) => json,
        Err(_) => String::new(),
    }
}

/// The line to write to the socket for a request: its JSON and a newline.
pub fn request_line(request: NiriRequest) -> (line: String)
    ensures
        line@ == request_line_text(request),
{
    let mut line = encode_request(request);
    line.append("\n");
    proof {
        reveal_strlit("\n");
    }
    line
}

/// The event that a line of the event stream decodes to, as `niri_ipc`'s
/// `Event` read by `serde_json` and reduced to what the bar reads; `None`
/// when the line is not such an event.
pub uninterp spec fn decoded_event(line: Seq<char>) -> Option<NiriEvent>;

/// Why a line could not be read as a reply.
#[derive(Debug, Clone, Copy, PartialEq, Eq, Structural)]
pub enum DecodeError {
    /// The line ended before the JSON value did (an empty or cut-off line).
    UnexpectedEof,
    /// The line is not valid JSON, or not JSON of a reply.
    InvalidData,
}

/// The reply that a reply line decodes to, as `niri_ipc`'s `Reply` read by
/// `serde_json` and reduced to what the bar reads; or why the line is not
/// such a reply.
pub uninterp spec fn decoded_reply(line: Seq<char>) -> Result<Result<NiriResponse, String>, DecodeError>;

/// Reads a line with `serde_json::from_str` as a `niri_ipc::Event` and keeps
/// of it the fields the bar reads. Claimed of the call: its outcome depends
/// on the line alone.
#[verifier::external_body]
fn parse_event_json(line: &str) -> (event: Option<NiriEvent>)
    ensures
        event == decoded_event(line@),
{
    match serde_json::from_str::<Event>(line) {
        Err(_) => None,
        Ok(event) => Some(match event {
            Event::WorkspacesChanged { workspaces } => NiriEvent::WorkspacesChanged { workspaces: workspaces.iter().map(|w| NiriWorkspace { id: w.id, idx: w.idx }).collect() },
            Event::WorkspaceActivated { id, focused } => NiriEvent::WorkspaceActivated { id, focused },
            Event::WorkspaceActiveWindowChanged { workspace_id, active_window_id } => NiriEvent::WorkspaceActiveWindowChanged { workspace_id, active_window_id },
            Event::WindowOpenedOrChanged { window } => NiriEvent::WindowOpenedOrChanged { window: NiriWindow { id: window.id, title: window.title, app_id: window.app_id, is_focused: window.is_focused } },
            Event::WindowClosed { id } => NiriEvent::WindowClosed { id },
            Event::WindowFocusChanged { id } => NiriEvent::WindowFocusChanged { id },
            Event::WindowLayoutsChanged { .. } => NiriEvent::WindowLayoutsChanged,
            _ => NiriEvent::Other,
        }),
    }
}

/// Reads a line with `serde_json::from_str` as a `niri_ipc::Reply` and keeps
/// of it the fields the bar reads, or the category of serde's error: end of
/// input, or anything else (from a string serde reports no I/O error).
/// Claimed of the call: its outcome depends on the line alone.
#[verifier::external_body]
fn parse_reply_json(line: &str) -> (reply: Result<Result<NiriResponse, String>, DecodeError>)
    ensures
        reply == decoded_reply(line@),
{
    match serde_json::from_str::<Reply>(line) {
        Err(e) if e.is_eof() => Err(DecodeError::UnexpectedEof),
        Err(_) => Err(DecodeError::InvalidData),
        Ok(Err(message)) => Ok(Err(message)),
        Ok(Ok(response)) => Ok(Ok(match response {
            Response::Handled => NiriResponse::Handled,
            Response::Windows(ws) => NiriResponse::Windows(ws.into_iter().map(|w| NiriWindow { id: w.id, title: w.title, app_id: w.app_id, is_focused: w.is_focused }).collect()),
            Response::Workspaces(ws) => NiriResponse::Workspaces(ws.iter().map(|w| NiriWorkspace { id: w.id, idx: w.idx }).collect()),
            _ => NiriResponse::Other,
        })),
    }
}

/// The event a line read from the event stream carries, or `None` when the
/// line is not an event.
pub fn decode_event(line: &str) -> (event: Option<NiriEvent>)
    ensures
        event == decoded_event(line@),
{
    parse_event_json(line)
}

/// The reply a line read after a request carries: the compositor's answer
/// or its error message; or why the line is not a reply.
pub fn decode_reply(line: &str) -> (reply: Result<Result<NiriResponse, String>, DecodeError>)
    ensures
        reply == decoded_reply(line@),
{
    parse_reply_json(line)
}

} // verus!
