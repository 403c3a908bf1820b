//! The socket that clients keep open: what each message on it leads to.

use crate::packet::{DaemonRequest, DaemonResponse};
use vstd::prelude::*;
use vstd::string::*;

verus! {

/// Why a socket is closed.
#[derive(Clone, Copy, Debug, PartialEq, Eq, Structural)]
pub enum CloseCode {
    Abnormal,
    Error,
    Invalid,
    Unsupported,
}

/// What happens next on the socket.
#[derive(Debug)]
pub enum SocketAction {
    /// The response is sent under this number.
    Send(u64, DaemonResponse),
    /// The request is run, and answered under this number.
    Run(u64, DaemonRequest),
    Pong,
    Wait,
    Close(CloseCode, String),
    /// The socket is closed with what the client gave as its reason.
    CloseAsAsked,
    /// The socket is closed without a reason.
    CloseSilently,
}

/// What came in.
#[derive(Debug)]
pub enum SocketEvent {
    /// The state of the daemon changed.
    Patch,
    Ping,
    Pong,
    /// A request, with its number.
    Request(u64, DaemonRequest),
    /// A text that is no request: the text, and what is wrong with it.
    Malformed(String, String),
    Binary,
    CloseAsked,
    Ended,
    /// The request of this number was run.
    Answered(u64, Result<DaemonResponse, String>),
    PongFailed(String),
    SendFailed(String),
    /// A response could not be put into words.
    Unserialised(String),
}

/// The number under which changes of state are sent.
pub const PATCH_ID: u64 = 0xffff_ffff_ffff_ffff;

/// The number in a field of a text in JSON: none where the field is missing or no such number, an
/// error where the text is no JSON.
pub uninterp spec fn number_in(text: Seq<char>, field: Seq<char>) -> Result<Option<u64>, Seq<char>>;

/// The number or the text of the error.
pub open spec fn id_view(id: Result<Option<u64>, String>) -> Result<Option<u64>, Seq<char>> {
    match id {
        Ok(id) => Ok(id),
        Err(error) => Err(error@),
    }
}

/// `serde_json::from_str` reads the text as a value; `Value::as_u64` gives a field of it where that is
/// a whole number.
#[verifier::external_body]
fn read_number(text: &str, field: &str) -> (id: Result<Option<u64>, String>)
    ensures
        id_view(id) == number_in(text@, field@),
{
    match serde_json::from_str::<serde_json::Value>(text) {
        Ok(value) => Ok(value[field].as_u64()),
        Err(error) => Err(error.to_string()),
    }
}

/// What a text that is no request leads to: with a number it is answered, without one the socket is
/// closed.
pub open spec fn malformed_action(
    id: Result<Option<u64>, Seq<char>>,
    error: Seq<char>,
    action: SocketAction,
) -> bool {
    match id {
        Ok(Some(id)) => action matches SocketAction::Send(to, DaemonResponse::Error(text)) && to
            == id && text@ == error,
        Ok(None) => action matches SocketAction::Close(code, text) && code == CloseCode::Invalid
            && text@ == "Missing or invalid Request ID"@,
        Err(reason) => action matches SocketAction::Close(code, text) && code == CloseCode::Invalid
            && text@ == reason,
    }
}

/// Finds what a text that is no request leads to, given the number in it.
pub fn malformed_with(id: Result<Option<u64>, String>, error: String) -> (action: SocketAction)
    ensures
        malformed_action(id_view(id), error@, action),
{
    match id {
        Ok(Some(id)) => SocketAction::Send(id, DaemonResponse::Error(error)),
        Ok(None) => SocketAction::Close(
            CloseCode::Invalid,
            "Missing or invalid Request ID".to_owned(),
        ),
        Err(reason) => SocketAction::Close(CloseCode::Invalid, reason),
    }
}

/// What a request that was run leads to: only some kinds of answer belong on the socket.
pub open spec fn answered_action(
    id: u64,
    outcome: Result<DaemonResponse, String>,
    action: SocketAction,
) -> bool {
    match outcome {
        Ok(response) => match response {
            DaemonResponse::HttpState | DaemonResponse::Patch => {
                action matches SocketAction::Close(code, text) && code == CloseCode::Abnormal
                    && text@ == "Unexpected Message Type"@
            },
            _ => action == SocketAction::Send(id, response),
        },
        Err(error) => action == SocketAction::Send(id, DaemonResponse::Error(error)),
    }
}

/// Finds what a request that was run leads to.
pub fn answered(id: u64, outcome: Result<DaemonResponse, String>) -> (action: SocketAction)
    ensures
        answered_action(id, outcome, action),
{
    match outcome {
        Ok(response) => match response {
            DaemonResponse::HttpState | DaemonResponse::Patch => SocketAction::Close(
                CloseCode::Abnormal,
                "Unexpected Message Type".to_owned(),
            ),
            response => SocketAction::Send(id, response),
        },
        Err(error) => SocketAction::Send(id, DaemonResponse::Error(error)),
    }
}

/// What an event leads to.
pub open spec fn socket_action(event: SocketEvent, action: SocketAction) -> bool {
    match event {
        SocketEvent::Patch => action == SocketAction::Send(PATCH_ID, DaemonResponse::Patch),
        SocketEvent::Ping => action is Pong,
        SocketEvent::Pong => action is Wait,
        SocketEvent::Request(id, request) => action == SocketAction::Run(id, request),
        SocketEvent::Malformed(text, error) => malformed_action(
            number_in(text@, "id"@),
            error@,
            action,
        ),
        SocketEvent::Binary => action matches SocketAction::Close(code, text) && code
            == CloseCode::Unsupported && text@ == "Binary is not Supported"@,
        SocketEvent::CloseAsked => action is CloseAsAsked,
        SocketEvent::Ended => action is CloseSilently,
        SocketEvent::Answered(id, outcome) => answered_action(id, outcome, action),
        SocketEvent::PongFailed(error) => action matches SocketAction::Close(code, text) && code
            == CloseCode::Error && text@ == "Failed to Send Pong: "@ + error@,
        SocketEvent::SendFailed(error) => action == SocketAction::Close(CloseCode::Error, error),
        SocketEvent::Unserialised(error) => action matches SocketAction::Close(code, text) && code
            == CloseCode::Error && text@ == "Serialization Error: "@ + error@,
    }
}

/// Finds what an event leads to.
pub fn websocket(event: SocketEvent) -> (action: SocketAction)
    ensures
        socket_action(event, action),
{
    match event {
        SocketEvent::Patch => SocketAction::Send(PATCH_ID, DaemonResponse::Patch),
        SocketEvent::Ping => SocketAction::Pong,
        SocketEvent::Pong => SocketAction::Wait,
        SocketEvent::Request(id, request) => SocketAction::Run(id, request),
        SocketEvent::Malformed(text, error) => {
            let id = read_number(text.as_str(), "id");
            malformed_with(id, error)
        },
        SocketEvent::Binary => SocketAction::Close(
            CloseCode::Unsupported,
            "Binary is not Supported".to_owned(),
        ),
        SocketEvent::CloseAsked => SocketAction::CloseAsAsked,
        SocketEvent::Ended => SocketAction::CloseSilently,
        SocketEvent::Answered(id, outcome) => answered(id, outcome),
        SocketEvent::PongFailed(error) => SocketAction::Close(
            CloseCode::Error,
            crate::text::joined("Failed to Send Pong: ", error.as_str()),
        ),
        SocketEvent::SendFailed(error) => SocketAction::Close(CloseCode::Error, error),
        SocketEvent::Unserialised(error) => SocketAction::Close(
            CloseCode::Error,
            crate::text::joined("Serialization Error: ", error.as_str()),
        ),
    }
}

/// An answer goes out under the number of its request, and only a change of state under the number
/// kept for it.
pub proof fn answers_keep_their_number(
    id: u64,
    outcome: Result<DaemonResponse, String>,
    action: SocketAction,
)
    requires
        answered_action(id, outcome, action),
    ensures
        action matches SocketAction::Send(to, response) ==> to == id && !(response is Patch),
        action is Send || action is Close,
{
}

} // verus!
