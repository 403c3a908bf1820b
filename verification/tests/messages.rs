//! Requests of clients, the socket that they keep open, and texts in JSON.

use goxlr_daemon::json::{check_path, find_values, status_patch};
use goxlr_daemon::ipc_server::{ipc_tidy, TidyAction};
use goxlr_daemon::packet::{
    handle_packet, response_for, Awaited, DaemonCommand, DaemonRequest, DaemonResponse, Delivery,
    DeviceCommand, Dispatch, PathTypes,
};
use goxlr_daemon::websocket::{websocket, CloseCode, SocketAction, SocketEvent, PATCH_ID};

#[test]
fn ping_is_answered_at_once() {
    match handle_packet(DaemonRequest::Ping) {
        Dispatch::Answer(DaemonResponse::Done) => {}
        other => panic!("{:?}", other),
    }
}

#[test]
fn opening_a_path_is_not_waited_for() {
    match handle_packet(DaemonRequest::OpenPath(PathTypes::Logs)) {
        Dispatch::Forward(
            DeviceCommand::RunDaemonCommand(DaemonCommand::OpenPath(PathTypes::Logs)),
            Awaited::Nothing,
        ) => {}
        other => panic!("{:?}", other),
    }
}

#[test]
fn status_is_fetched() {
    match handle_packet(DaemonRequest::GetStatus) {
        Dispatch::Forward(DeviceCommand::SendDaemonStatus, awaited) => {
            assert!(matches!(response_for(awaited, Delivery::Done), DaemonResponse::Status));
        }
        other => panic!("{:?}", other),
    }
}

#[test]
fn sockets_left_behind_are_removed() {
    assert_eq!(ipc_tidy(false, false, false, false), TidyAction::Continue);
    assert_eq!(ipc_tidy(false, true, false, false), TidyAction::Remove);
    assert_eq!(ipc_tidy(false, true, true, false), TidyAction::Remove);
    assert_eq!(ipc_tidy(false, true, true, true), TidyAction::AlreadyRunning);
    assert_eq!(ipc_tidy(true, false, false, false), TidyAction::Continue);
    assert_eq!(ipc_tidy(true, false, true, false), TidyAction::Fail);
    assert_eq!(ipc_tidy(true, false, true, true), TidyAction::AlreadyRunning);
}

#[test]
fn refusals_reach_the_client() {
    match response_for(Awaited::Outcome, Delivery::Refused(String::from("no"))) {
        DaemonResponse::Error(text) => assert_eq!(text, "no"),
        other => panic!("{:?}", other),
    }
    for (awaited, expected) in [
        (Awaited::Nothing, "Could not communicate with the device task"),
        (Awaited::Status, "Could not communicate with the device task"),
        (Awaited::DeviceOutcome, "Could not communicate with the GoXLR device"),
    ] {
        match response_for(awaited, Delivery::Unsent) {
            DaemonResponse::Error(text) => assert_eq!(text, expected),
            other => panic!("{:?}", other),
        }
    }
    for (awaited, expected) in [
        (Awaited::Outcome, "channel closed"),
        (Awaited::Status, "Could not execute the command on the device task"),
        (Awaited::DeviceOutcome, "Could not execute the command on the GoXLR device"),
    ] {
        match response_for(awaited, Delivery::Unanswered(String::from("channel closed"))) {
            DaemonResponse::Error(text) => assert_eq!(text, expected),
            other => panic!("{:?}", other),
        }
    }
}

#[test]
fn patches_have_their_own_number() {
    match websocket(SocketEvent::Patch) {
        SocketAction::Send(id, DaemonResponse::Patch) => {
            assert_eq!(id, u64::MAX);
            assert_eq!(id, PATCH_ID);
        }
        other => panic!("{:?}", other),
    }
}

#[test]
fn malformed_request_with_number_is_answered() {
    let event = SocketEvent::Malformed(
        String::from("{\"id\": 7, \"data\": \"?\"}"),
        String::from("unknown variant"),
    );
    match websocket(event) {
        SocketAction::Send(7, DaemonResponse::Error(text)) => assert_eq!(text, "unknown variant"),
        other => panic!("{:?}", other),
    }
}

#[test]
fn malformed_request_without_number_closes() {
    for text in ["{\"data\": 1}", "{\"id\": -1}", "[]", "{\"id\": \"7\"}"] {
        match websocket(SocketEvent::Malformed(String::from(text), String::from("x"))) {
            SocketAction::Close(CloseCode::Invalid, reason) => {
                assert_eq!(reason, "Missing or invalid Request ID")
            }
            other => panic!("{:?}", other),
        }
    }
}

#[test]
fn broken_json_closes_with_its_error() {
    match websocket(SocketEvent::Malformed(String::from("{"), String::from("x"))) {
        SocketAction::Close(CloseCode::Invalid, reason) => assert!(reason.contains("EOF")),
        other => panic!("{:?}", other),
    }
}

#[test]
fn binary_messages_close() {
    match websocket(SocketEvent::Binary) {
        SocketAction::Close(CloseCode::Unsupported, reason) => {
            assert_eq!(reason, "Binary is not Supported")
        }
        other => panic!("{:?}", other),
    }
}

#[test]
fn answers_keep_the_number_of_their_request() {
    match websocket(SocketEvent::Answered(3, Ok(DaemonResponse::Done))) {
        SocketAction::Send(3, DaemonResponse::Done) => {}
        other => panic!("{:?}", other),
    }
    match websocket(SocketEvent::Answered(4, Err(String::from("e")))) {
        SocketAction::Send(4, DaemonResponse::Error(text)) => assert_eq!(text, "e"),
        other => panic!("{:?}", other),
    }
    match websocket(SocketEvent::Answered(5, Ok(DaemonResponse::HttpState))) {
        SocketAction::Close(CloseCode::Abnormal, reason) => {
            assert_eq!(reason, "Unexpected Message Type")
        }
        other => panic!("{:?}", other),
    }
}

#[test]
fn failures_to_send_close() {
    match websocket(SocketEvent::PongFailed(String::from("x"))) {
        SocketAction::Close(CloseCode::Error, reason) => assert_eq!(reason, "Failed to Send Pong: x"),
        other => panic!("{:?}", other),
    }
    match websocket(SocketEvent::Unserialised(String::from("x"))) {
        SocketAction::Close(CloseCode::Error, reason) => assert_eq!(reason, "Serialization Error: x"),
        other => panic!("{:?}", other),
    }
}

#[test]
fn nothing_is_told_without_a_change() {
    assert!(status_patch("{\"a\":1}", "{\"a\":1}").is_none());
    assert!(status_patch("{\"a\":1}", "{ \"a\" : 1 }").is_none());
    assert!(status_patch("{", "{}").is_none());
}

#[test]
fn changes_are_told_as_operations() {
    assert_eq!(
        status_patch("{\"a\":1}", "{\"a\":2}").unwrap(),
        "[{\"op\":\"replace\",\"path\":\"/a\",\"value\":2}]"
    );
}

#[test]
fn values_are_found_by_their_path() {
    assert_eq!(find_values("{\"a\":[1,2]}", "$.a[1]").unwrap(), "[2]");
    assert!(find_values("{\"a\":1}", "$.[").is_none());
    assert!(find_values("{", "$.a").is_none());
    let books = "{\"a\":[{\"b\":1},{\"b\":2}]}";
    assert_eq!(find_values(books, "$..b").unwrap(), "[1,2]");
    assert_eq!(find_values(books, "$.a[?(@.b > 1)].b").unwrap(), "[2]");
    assert_eq!(find_values(books, "$.a[0,1].b").unwrap(), "[1,2]");
}

#[test]
fn large_paths_are_not_followed() {
    let deep = format!("$[?{}@{} == 1", "length(".repeat(60), ")".repeat(60));
    assert!(!check_path(&deep));
    assert!(find_values("{\"a\":1}", &deep).is_none());
    let doubled = format!("${}", "[*,*]".repeat(17));
    for large in ["$..a..b..c..d", "$[?$.a == $.b && $.c == $.d]", &doubled] {
        assert!(!check_path(large));
        assert!(find_values("{\"a\":1}", large).is_none());
    }
    assert_eq!(find_values("[1,1]", "$[?@ == $[0] && @ == $[1]]").unwrap(), "[1,1]");
    let nested = format!("$[?{}@{} == 1]", "length(".repeat(8), ")".repeat(8));
    assert!(check_path(&nested));
    assert!(find_values("{\"a\":1}", &nested).is_some());
}
