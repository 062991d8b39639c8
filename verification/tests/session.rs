//! End-to-end tests of the dispatch core over an in-memory transport: the
//! whole inbound script is queued first, the session runs to completion on the
//! current thread, and the outbound traffic is drained and checked.

use lsp_server::{Connection, Message, Notification, Request, RequestId, Response};
use lspeasy::{
    CompletionItem, CompletionRequest, DiagnosticItem, DiagnosticSeverity, DiagnosticsRequest,
    LanguageServer, LanguageServerHandler, MessageType, Position, Range, RunExit, SessionState,
    TextDocumentContentChangeEvent, TextDocumentItem, VersionedTextDocumentIdentifier,
};
use serde_json::Value;

fn completion_params(line: u32, character: u32) -> Value {
    let mut pos = serde_json::Map::new();
    pos.insert("line".to_string(), Value::from(line));
    pos.insert("character".to_string(), Value::from(character));
    let mut params = serde_json::Map::new();
    params.insert("position".to_string(), Value::Object(pos));
    Value::Object(params)
}

fn diagnostics_params(uri: &str) -> Value {
    let mut doc = serde_json::Map::new();
    doc.insert("uri".to_string(), Value::from(uri));
    let mut params = serde_json::Map::new();
    params.insert("textDocument".to_string(), Value::Object(doc));
    Value::Object(params)
}

fn did_change_params(uri: &str, version: i32, text: &str) -> Value {
    let mut doc = serde_json::Map::new();
    doc.insert("uri".to_string(), Value::from(uri));
    doc.insert("version".to_string(), Value::from(version));
    let mut change = serde_json::Map::new();
    change.insert("text".to_string(), Value::from(text));
    let mut params = serde_json::Map::new();
    params.insert("textDocument".to_string(), Value::Object(doc));
    params.insert("contentChanges".to_string(), Value::Array(vec![Value::Object(change)]));
    Value::Object(params)
}

fn shutdown_request(id: i32) -> Message {
    Message::Request(Request {
        id: RequestId::from(id),
        method: "shutdown".to_string(),
        params: Value::Null,
    })
}

fn exit_notification() -> Message {
    Message::Notification(Notification { method: "exit".to_string(), params: Value::Null })
}

fn capital_diagnostics(input: &str) -> Vec<DiagnosticItem> {
    let mut out = Vec::new();
    let mut start: Option<Position> = None;
    for (line_idx, line) in input.lines().enumerate() {
        for (i, c) in line.char_indices() {
            if c.is_ascii_uppercase() {
                if start.is_none() {
                    start = Some(Position { line: line_idx as u32, character: i as u32 });
                }
            } else if let Some(s) = start.take() {
                out.push(DiagnosticItem {
                    range: Range {
                        start: s,
                        end: Position { line: line_idx as u32, character: i as u32 },
                    },
                    severity: DiagnosticSeverity::Warning,
                    message: "Capital Letters detected".to_string(),
                });
            }
        }
    }
    out
}

struct EchoHandler;

impl LanguageServerHandler for EchoHandler {
    fn completion(&self, server: &mut LanguageServer, req: CompletionRequest) {
        let label = format!("char{}line{}", req.position.character, req.position.line);
        let _ = req.respond(server, vec![CompletionItem { label }]);
    }

    fn diagnostics(&self, server: &mut LanguageServer, req: DiagnosticsRequest) {
        let diags = capital_diagnostics("Hello world\nBye");
        let _ = req.respond(server, diags);
    }

    fn text_document_opened(&self, server: &mut LanguageServer, document: TextDocumentItem) {
        let _ = server.log(format!("opened {}", document.uri.as_str()), MessageType::Info);
    }

    fn text_document_changed(
        &self,
        server: &mut LanguageServer,
        document: VersionedTextDocumentIdentifier,
        changes: Vec<TextDocumentContentChangeEvent>,
    ) {
        let diags = capital_diagnostics(&changes[0].text);
        let _ = server.send_diagnostics(document.uri, diags);
    }
}

fn run_session(inbound: Vec<Message>) -> (Vec<Message>, SessionState) {
    let (server_side, client_side) = Connection::memory();
    for msg in inbound {
        client_side.sender.send(msg).expect("queueing inbound");
    }
    let mut server = LanguageServer::from_connection(server_side);
    let exit = server.run(&EchoHandler).expect("session run");
    assert_eq!(exit, RunExit::ShutDown, "every scripted session ends on its shutdown request");
    let state = server.state();
    let mut outbound = Vec::new();
    while let Ok(msg) = client_side.receiver.try_recv() {
        outbound.push(msg);
    }
    (outbound, state)
}

fn as_response(msg: &Message) -> &Response {
    match msg {
        Message::Response(r) => r,
        other => panic!("expected a response, got {other:?}"),
    }
}

fn as_notification(msg: &Message) -> &Notification {
    match msg {
        Message::Notification(n) => n,
        other => panic!("expected a notification, got {other:?}"),
    }
}

#[test]
fn completion_request_yields_position_label() {
    let (outbound, state) = run_session(vec![
        Message::Request(Request {
            id: RequestId::from(1),
            method: "textDocument/completion".to_string(),
            params: completion_params(3, 7),
        }),
        shutdown_request(2),
        exit_notification(),
    ]);
    assert_eq!(outbound.len(), 2);
    let resp = as_response(&outbound[0]);
    assert_eq!(resp.id, RequestId::from(1));
    assert!(resp.error.is_none());
    let items = resp.result.as_ref().unwrap().as_array().unwrap();
    assert_eq!(items.len(), 1);
    assert_eq!(items[0].get("label").unwrap().as_str().unwrap(), "char7line3");
    let ack = as_response(&outbound[1]);
    assert_eq!(ack.id, RequestId::from(2));
    assert_eq!(state, SessionState::Terminated);
}

#[test]
fn unrecognized_request_logs_one_warning_and_no_response() {
    let (outbound, _) = run_session(vec![
        Message::Request(Request {
            id: RequestId::from(7),
            method: "foo/bar".to_string(),
            params: Value::Null,
        }),
        shutdown_request(8),
        exit_notification(),
    ]);
    assert_eq!(outbound.len(), 2);
    let warning = as_notification(&outbound[0]);
    assert_eq!(warning.method, "window/logMessage");
    assert_eq!(warning.params.get("type").unwrap().as_i64().unwrap(), 2);
    let text = warning.params.get("message").unwrap().as_str().unwrap();
    assert_eq!(text, "unrecognized request: foo/bar");
    let responses: Vec<&Response> = outbound
        .iter()
        .filter_map(|m| match m {
            Message::Response(r) => Some(r),
            _ => None,
        })
        .collect();
    assert_eq!(responses.len(), 1);
    assert_eq!(responses[0].id, RequestId::from(8));
}

#[test]
fn notifications_never_get_responses() {
    let mut doc = serde_json::Map::new();
    doc.insert("uri".to_string(), Value::from("file:///tmp/a.txt"));
    doc.insert("languageId".to_string(), Value::from("text"));
    doc.insert("version".to_string(), Value::from(1));
    doc.insert("text".to_string(), Value::from("hello"));
    let mut open_params = serde_json::Map::new();
    open_params.insert("textDocument".to_string(), Value::Object(doc));
    let (outbound, _) = run_session(vec![
        Message::Notification(Notification {
            method: "foo/event".to_string(),
            params: Value::Null,
        }),
        Message::Notification(Notification {
            method: "textDocument/didOpen".to_string(),
            params: Value::Object(open_params),
        }),
        shutdown_request(1),
        exit_notification(),
    ]);
    let responses: Vec<&Response> = outbound
        .iter()
        .filter_map(|m| match m {
            Message::Response(r) => Some(r),
            _ => None,
        })
        .collect();
    assert_eq!(responses.len(), 1, "only the shutdown ack may be a response");
    assert_eq!(responses[0].id, RequestId::from(1));
    let warning = as_notification(&outbound[0]);
    assert_eq!(warning.method, "window/logMessage");
    assert_eq!(
        warning.params.get("message").unwrap().as_str().unwrap(),
        "unrecognized notification: foo/event"
    );
    let opened = as_notification(&outbound[1]);
    assert_eq!(opened.method, "window/logMessage");
    assert_eq!(
        opened.params.get("message").unwrap().as_str().unwrap(),
        "opened file:///tmp/a.txt"
    );
}

#[test]
fn diagnostics_request_reports_capital_letters() {
    let (outbound, _) = run_session(vec![
        Message::Request(Request {
            id: RequestId::from(3),
            method: "textDocument/diagnostic".to_string(),
            params: diagnostics_params("file:///tmp/t.txt"),
        }),
        shutdown_request(4),
        exit_notification(),
    ]);
    assert_eq!(outbound.len(), 2);
    let resp = as_response(&outbound[0]);
    assert_eq!(resp.id, RequestId::from(3));
    let report = resp.result.as_ref().unwrap();
    assert_eq!(report.get("kind").unwrap().as_str().unwrap(), "full");
    let items = report.get("items").unwrap().as_array().unwrap();
    assert_eq!(items.len(), 2);
    for (item, line) in items.iter().zip([0u64, 1u64]) {
        let range = item.get("range").unwrap();
        assert_eq!(range.get("start").unwrap().get("line").unwrap().as_u64().unwrap(), line);
        assert_eq!(range.get("start").unwrap().get("character").unwrap().as_u64().unwrap(), 0);
        assert_eq!(range.get("end").unwrap().get("line").unwrap().as_u64().unwrap(), line);
        assert_eq!(range.get("end").unwrap().get("character").unwrap().as_u64().unwrap(), 1);
        assert_eq!(item.get("severity").unwrap().as_i64().unwrap(), 2);
        assert_eq!(
            item.get("message").unwrap().as_str().unwrap(),
            "Capital Letters detected"
        );
    }
}

#[test]
fn shutdown_stops_processing_queued_messages() {
    let (outbound, state) = run_session(vec![
        shutdown_request(9),
        exit_notification(),
        Message::Request(Request {
            id: RequestId::from(10),
            method: "textDocument/completion".to_string(),
            params: completion_params(0, 0),
        }),
    ]);
    assert_eq!(outbound.len(), 1, "nothing after the shutdown ack");
    let ack = as_response(&outbound[0]);
    assert_eq!(ack.id, RequestId::from(9));
    assert_eq!(state, SessionState::Terminated);
}

#[test]
fn log_and_send_diagnostics_send_one_notification_per_call() {
    let (server_side, client_side) = Connection::memory();
    let mut server = LanguageServer::from_connection(server_side);
    server.log("first".to_string(), MessageType::Info).unwrap();
    server.log("second".to_string(), MessageType::Warning).unwrap();
    let uri = lsp_types::Url::parse("file:///tmp/d.txt").unwrap();
    let diag = DiagnosticItem {
        range: Range {
            start: Position { line: 0, character: 0 },
            end: Position { line: 0, character: 1 },
        },
        severity: DiagnosticSeverity::Error,
        message: "bad".to_string(),
    };
    server.send_diagnostics(uri.clone(), vec![diag.clone()]).unwrap();
    server.send_diagnostics(uri, vec![diag]).unwrap();
    let mut outbound = Vec::new();
    while let Ok(msg) = client_side.receiver.try_recv() {
        outbound.push(msg);
    }
    assert_eq!(outbound.len(), 4);
    let first = as_notification(&outbound[0]);
    assert_eq!(first.method, "window/logMessage");
    assert_eq!(first.params.get("message").unwrap().as_str().unwrap(), "first");
    assert_eq!(first.params.get("type").unwrap().as_i64().unwrap(), 3);
    let second = as_notification(&outbound[1]);
    assert_eq!(second.params.get("message").unwrap().as_str().unwrap(), "second");
    assert_eq!(second.params.get("type").unwrap().as_i64().unwrap(), 2);
    for published in &outbound[2..] {
        let note = as_notification(published);
        assert_eq!(note.method, "textDocument/publishDiagnostics");
        assert_eq!(note.params.get("uri").unwrap().as_str().unwrap(), "file:///tmp/d.txt");
        let items = note.params.get("diagnostics").unwrap().as_array().unwrap();
        assert_eq!(items.len(), 1);
        assert_eq!(items[0].get("message").unwrap().as_str().unwrap(), "bad");
        assert_eq!(items[0].get("severity").unwrap().as_i64().unwrap(), 1);
    }
}

#[test]
fn malformed_completion_payload_gets_error_response() {
    let (outbound, _) = run_session(vec![
        Message::Request(Request {
            id: RequestId::from(4),
            method: "textDocument/completion".to_string(),
            params: Value::Null,
        }),
        shutdown_request(5),
        exit_notification(),
    ]);
    assert_eq!(outbound.len(), 2);
    let resp = as_response(&outbound[0]);
    assert_eq!(resp.id, RequestId::from(4));
    assert!(resp.result.is_none());
    let error = resp.error.as_ref().unwrap();
    assert_eq!(error.code, -32602);
    assert_eq!(error.message, "malformed request payload: textDocument/completion");
}

#[test]
fn malformed_did_change_is_logged_and_dropped() {
    let (outbound, _) = run_session(vec![
        Message::Notification(Notification {
            method: "textDocument/didChange".to_string(),
            params: Value::Null,
        }),
        Message::Request(Request {
            id: RequestId::from(5),
            method: "textDocument/completion".to_string(),
            params: completion_params(1, 2),
        }),
        shutdown_request(6),
        exit_notification(),
    ]);
    assert_eq!(outbound.len(), 3);
    let warning = as_notification(&outbound[0]);
    assert_eq!(warning.method, "window/logMessage");
    assert_eq!(warning.params.get("type").unwrap().as_i64().unwrap(), 2);
    assert_eq!(
        warning.params.get("message").unwrap().as_str().unwrap(),
        "malformed notification payload: textDocument/didChange"
    );
    let resp = as_response(&outbound[1]);
    assert_eq!(resp.id, RequestId::from(5));
    let items = resp.result.as_ref().unwrap().as_array().unwrap();
    assert_eq!(items[0].get("label").unwrap().as_str().unwrap(), "char2line1");
}

#[test]
fn did_change_pushes_diagnostics_for_the_document() {
    let (outbound, _) = run_session(vec![
        Message::Notification(Notification {
            method: "textDocument/didChange".to_string(),
            params: did_change_params("file:///tmp/c.txt", 2, "Hi"),
        }),
        shutdown_request(11),
        exit_notification(),
    ]);
    assert_eq!(outbound.len(), 2);
    let note = as_notification(&outbound[0]);
    assert_eq!(note.method, "textDocument/publishDiagnostics");
    assert_eq!(note.params.get("uri").unwrap().as_str().unwrap(), "file:///tmp/c.txt");
    let items = note.params.get("diagnostics").unwrap().as_array().unwrap();
    assert_eq!(items.len(), 1);
    let range = items[0].get("range").unwrap();
    assert_eq!(range.get("start").unwrap().get("character").unwrap().as_u64().unwrap(), 0);
    assert_eq!(range.get("end").unwrap().get("character").unwrap().as_u64().unwrap(), 1);
}

#[test]
fn send_failure_is_reported_and_recoverable() {
    let (server_side, client_side) = Connection::memory();
    drop(client_side);
    let mut server = LanguageServer::from_connection(server_side);
    let r = server.log("lost".to_string(), MessageType::Info);
    assert_eq!(r, Err(lspeasy::ServerError::TransportSendFailure));
}

#[test]
fn shutdown_without_exit_is_a_shutdown_protocol_error() {
    let (server_side, client_side) = Connection::memory();
    client_side.sender.send(shutdown_request(1)).unwrap();
    drop(client_side);
    let mut server = LanguageServer::from_connection(server_side);
    let r = server.run(&EchoHandler);
    assert_eq!(r, Err(lspeasy::ServerError::ShutdownProtocol));
    assert_eq!(server.state(), SessionState::Terminated);
}

#[test]
fn out_of_range_position_is_a_malformed_payload() {
    let mut pos = serde_json::Map::new();
    pos.insert("line".to_string(), Value::from(1u64 << 35));
    pos.insert("character".to_string(), Value::from(0u32));
    let mut params = serde_json::Map::new();
    params.insert("position".to_string(), Value::Object(pos));
    let (outbound, _) = run_session(vec![
        Message::Request(Request {
            id: RequestId::from(12),
            method: "textDocument/completion".to_string(),
            params: Value::Object(params),
        }),
        shutdown_request(13),
        exit_notification(),
    ]);
    let resp = as_response(&outbound[0]);
    assert_eq!(resp.id, RequestId::from(12));
    assert_eq!(resp.error.as_ref().unwrap().code, -32602);
}

#[test]
fn closed_stream_ends_the_run_as_peer_closure() {
    let (server_side, client_side) = Connection::memory();
    drop(client_side.sender);
    let mut server = LanguageServer::from_connection(server_side);
    assert!(server.initialize_params().is_none());
    let exit = server.run(&EchoHandler).expect("closure is a clean end");
    assert_eq!(exit, RunExit::PeerClosed);
    assert_eq!(server.state(), SessionState::Terminated);
    assert!(client_side.receiver.try_recv().is_err(), "nothing was sent");
}
