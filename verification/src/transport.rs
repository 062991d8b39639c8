//! The trust boundary: declarations of the outside types that flow through the
//! dispatcher opaquely, and a wrapper around every transport, serialization
//! and deserialization call the library makes. Each sending wrapper's contract
//! states exactly which message the call appends to the ghost record of the
//! outbound sink; nothing else in the crate is taken on trust.

use vstd::prelude::*;
use crate::outbound::SentMsg;
use crate::protocol::{
    completion_views, diagnostic_views, shutdown_method, CompletionItem, DiagnosticItem,
    DiagnosticSeverity, MessageType, Position, Range, ServerError, TextDocumentContentChangeEvent,
    TextDocumentItem, VersionedTextDocumentIdentifier,
};
use crate::server::{InboundMessage, LanguageServer};
use crate::trace::SessionEvent;
use lsp_server::RequestId;

verus! {

/// The id of a request, opaque to the dispatcher: it only travels from a
/// request to the reply that answers it.
#[verifier::external_type_specification]
#[verifier::external_body]
pub struct ExRequestId(lsp_server::RequestId);

/// The transport: a pair of channels of wire messages.
#[verifier::external_type_specification]
#[verifier::external_body]
pub struct ExConnection(lsp_server::Connection);

/// The transport's background reader and writer threads.
#[verifier::external_type_specification]
#[verifier::external_body]
pub struct ExIoThreads(lsp_server::IoThreads);

/// A reply received from the client; the dispatcher discards these whole.
#[verifier::external_type_specification]
#[verifier::external_body]
pub struct ExResponse(lsp_server::Response);

/// The error of the handshake and shutdown helpers of the transport.
#[verifier::external_type_specification]
#[verifier::external_body]
pub struct ExProtocolError(lsp_server::ProtocolError);

/// An unparsed JSON payload, carried through the dispatcher opaquely.
#[verifier::external_type_specification]
#[verifier::external_body]
pub struct ExValue(serde_json::Value);

/// A document locator, carried through the dispatcher opaquely.
#[verifier::external_type_specification]
#[verifier::external_body]
pub struct ExUrl(lsp_types::Url);

/// The capabilities the server advertises, passed to the handshake unread.
#[verifier::external_type_specification]
#[verifier::external_body]
pub struct ExServerCapabilities(lsp_types::ServerCapabilities);

/// Relies on url::Url's Clone: the clone is the same locator. This backs the
/// derived Clone of the document payload types that carry a locator.
pub assume_specification[ <lsp_types::Url as Clone>::clone ](u: &lsp_types::Url) -> (r:
    lsp_types::Url)
    ensures
        r == u,
;

/// The wire shape of one diagnostic.
#[verifier::external_type_specification]
#[verifier::external_body]
pub struct ExLspDiagnostic(lsp_types::Diagnostic);

/// Relies on lsp_server::Connection::stdio: a transport over standard input
/// and output, with its background reader and writer threads.
#[verifier::external_body]
pub(crate) fn stdio_connection() -> (lsp_server::Connection, lsp_server::IoThreads) {
    lsp_server::Connection::stdio()
}

/// Relies on serde_json::to_value: encodes the advertised capabilities, which
/// always serialize (their map keys are strings).
#[verifier::external_body]
pub(crate) fn capabilities_json(capabilities: &lsp_types::ServerCapabilities) -> (r:
    serde_json::Value) {
    serde_json::to_value(capabilities).unwrap()
}

/// Relies on lsp_server::Connection::initialize: performs the whole
/// capabilities handshake and returns the client's initialize parameters.
#[verifier::external_body]
pub(crate) fn initialize_handshake(
    connection: &lsp_server::Connection,
    capabilities: serde_json::Value,
) -> (r: Result<serde_json::Value, lsp_server::ProtocolError>) {
    connection.initialize(capabilities)
}

/// Relies on crossbeam's Receiver::recv through the connection: blocks for the
/// next wire message and classifies it by moving its fields; a closed channel
/// ends the stream. Each arrival is recorded in the trace, a request's id is
/// recorded too, and closure leaves its own mark.
#[verifier::external_body]
pub(crate) fn next_inbound(server: &mut LanguageServer) -> (r: Option<InboundMessage>)
    ensures
        final(server).sent() == old(server).sent(),
        final(server).lifecycle() == old(server).lifecycle(),
        match r {
            Some(m) => final(server).trace() == old(server).trace().push(
                (SessionEvent::Arrived { msg: m@ }),
            ),
            None => final(server).trace() == old(server).trace().push(SessionEvent::StreamClosed),
        },
        match r {
            Some(InboundMessage::Request { id, .. }) => final(server).received() == old(
                server,
            ).received().push(id),
            _ => final(server).received() == old(server).received(),
        },
{
    match server.connection.receiver.recv() {
        Ok(lsp_server::Message::Request(q)) => Some(
            InboundMessage::Request { id: q.id, method: q.method, params: q.params },
        ),
        Ok(lsp_server::Message::Response(p)) => Some(InboundMessage::Reply { response: p }),
        Ok(lsp_server::Message::Notification(n)) => Some(
            InboundMessage::Notification { method: n.method, params: n.params },
        ),
        Err(_) => None,
    }
}

/// Relies on serde_json::to_value (log parameters always serialize) and the
/// connection's crossbeam Sender::send: hands one log-message notification to
/// the sink, or reports a send failure with the sink unchanged.
#[verifier::external_body]
pub(crate) fn send_log_message(
    server: &mut LanguageServer,
    message: String,
    message_type: MessageType,
) -> (r: Result<(), ServerError>)
    ensures
        final(server).lifecycle() == old(server).lifecycle(),
        final(server).received() == old(server).received(),
        final(server).trace() == old(server).trace(),
        match r {
            Ok(()) => final(server).sent() == old(server).sent().push(
                SentMsg::LogMessage { typ: message_type, message: message@ },
            ),
            Err(e) => final(server).sent() == old(server).sent() && e
                == ServerError::TransportSendFailure,
        },
{
    let typ = match message_type {
        MessageType::Error => lsp_types::MessageType::ERROR,
        MessageType::Warning => lsp_types::MessageType::WARNING,
        MessageType::Info => lsp_types::MessageType::INFO,
        MessageType::Log => lsp_types::MessageType::LOG,
    };
    let params = serde_json::to_value(lsp_types::LogMessageParams { typ, message }).unwrap();
    let note = lsp_server::Notification { method: "window/logMessage".to_string(), params };
    server.connection.sender.send(lsp_server::Message::Notification(note)).map_err(|_| ServerError::TransportSendFailure)
}

/// Relies on lsp_types::Diagnostic and its Default: fills the wire shape of
/// one diagnostic from its range, severity and message.
#[verifier::external_body]
pub(crate) fn to_wire_diagnostic(d: &DiagnosticItem) -> (r: lsp_types::Diagnostic) {
    let severity = match d.severity {
        DiagnosticSeverity::Error => lsp_types::DiagnosticSeverity::ERROR,
        DiagnosticSeverity::Warning => lsp_types::DiagnosticSeverity::WARNING,
        DiagnosticSeverity::Information => lsp_types::DiagnosticSeverity::INFORMATION,
        DiagnosticSeverity::Hint => lsp_types::DiagnosticSeverity::HINT,
    };
    let start = lsp_types::Position { line: d.range.start.line, character: d.range.start.character };
    let end = lsp_types::Position { line: d.range.end.line, character: d.range.end.character };
    let range = lsp_types::Range { start, end };
    lsp_types::Diagnostic { range, severity: Some(severity), message: d.message.clone(), ..Default::default() }
}

/// Relies on serde_json::to_value (the parameters always serialize) and the
/// connection's crossbeam Sender::send: hands one publish-diagnostics
/// notification to the sink, or reports a send failure with the sink
/// unchanged.
#[verifier::external_body]
pub(crate) fn send_publish_diagnostics(
    server: &mut LanguageServer,
    uri: lsp_types::Url,
    diagnostics: &Vec<DiagnosticItem>,
) -> (r: Result<(), ServerError>)
    ensures
        final(server).lifecycle() == old(server).lifecycle(),
        final(server).received() == old(server).received(),
        final(server).trace() == old(server).trace(),
        match r {
            Ok(()) => final(server).sent() == old(server).sent().push(
                SentMsg::PublishDiagnostics { uri, diagnostics: diagnostic_views(diagnostics@) },
            ),
            Err(e) => final(server).sent() == old(server).sent() && e
                == ServerError::TransportSendFailure,
        },
{
    let items: Vec<lsp_types::Diagnostic> = diagnostics.iter().map(to_wire_diagnostic).collect();
    let params = lsp_types::PublishDiagnosticsParams { uri, diagnostics: items, version: None };
    let value = serde_json::to_value(params).unwrap();
    let note = lsp_server::Notification { method: "textDocument/publishDiagnostics".to_string(), params: value };
    server.connection.sender.send(lsp_server::Message::Notification(note)).map_err(|_| ServerError::TransportSendFailure)
}

/// Relies on serde_json::to_value (a list of completion items always
/// serializes) and the connection's crossbeam Sender::send: hands one success
/// response to the sink, its result the literal item sequence, or reports a
/// send failure with the sink unchanged.
#[verifier::external_body]
pub(crate) fn send_completion_response(
    server: &mut LanguageServer,
    id: RequestId,
    completions: &Vec<CompletionItem>,
) -> (r: Result<(), ServerError>)
    ensures
        final(server).lifecycle() == old(server).lifecycle(),
        final(server).received() == old(server).received(),
        final(server).trace() == old(server).trace(),
        match r {
            Ok(()) => final(server).sent() == old(server).sent().push(
                SentMsg::CompletionResponse { id, items: completion_views(completions@) },
            ),
            Err(e) => final(server).sent() == old(server).sent() && e
                == ServerError::TransportSendFailure,
        },
{
    let items: Vec<lsp_types::CompletionItem> = completions.iter().map(
        |c| lsp_types::CompletionItem { label: c.label.clone(), ..Default::default() },
    ).collect();
    let result = Some(serde_json::to_value(items).unwrap());
    let resp = lsp_server::Message::Response(lsp_server::Response { id, result, error: None });
    server.connection.sender.send(resp).map_err(|_| ServerError::TransportSendFailure)
}

/// Relies on serde_json::to_value (the report always serializes) and the
/// connection's crossbeam Sender::send: wraps the diagnostics in a
/// full-document report envelope, hands that response to the sink, or reports
/// a send failure with the sink unchanged.
#[verifier::external_body]
pub(crate) fn send_diagnostics_response(
    server: &mut LanguageServer,
    id: RequestId,
    diagnostics: &Vec<DiagnosticItem>,
) -> (r: Result<(), ServerError>)
    ensures
        final(server).lifecycle() == old(server).lifecycle(),
        final(server).received() == old(server).received(),
        final(server).trace() == old(server).trace(),
        match r {
            Ok(()) => final(server).sent() == old(server).sent().push(
                SentMsg::DiagnosticsResponse { id, diagnostics: diagnostic_views(diagnostics@) },
            ),
            Err(e) => final(server).sent() == old(server).sent() && e
                == ServerError::TransportSendFailure,
        },
{
    let items: Vec<lsp_types::Diagnostic> = diagnostics.iter().map(to_wire_diagnostic).collect();
    let inner = lsp_types::FullDocumentDiagnosticReport { result_id: None, items };
    let report = lsp_types::DocumentDiagnosticReport::Full(
        lsp_types::RelatedFullDocumentDiagnosticReport {
            related_documents: None,
            full_document_diagnostic_report: inner,
        },
    );
    let result = Some(serde_json::to_value(report).unwrap());
    let resp = lsp_server::Message::Response(lsp_server::Response { id, result, error: None });
    server.connection.sender.send(resp).map_err(|_| ServerError::TransportSendFailure)
}

/// Relies on the connection's crossbeam Sender::send: hands one error response
/// to the sink, or reports a send failure with the sink unchanged.
#[verifier::external_body]
pub(crate) fn send_error_response(
    server: &mut LanguageServer,
    id: RequestId,
    code: i32,
    message: String,
) -> (r: Result<(), ServerError>)
    ensures
        final(server).lifecycle() == old(server).lifecycle(),
        final(server).received() == old(server).received(),
        final(server).trace() == old(server).trace(),
        match r {
            Ok(()) => final(server).sent() == old(server).sent().push(
                SentMsg::ErrorResponse { id, code: code as int, message: message@ },
            ),
            Err(e) => final(server).sent() == old(server).sent() && e
                == ServerError::TransportSendFailure,
        },
{
    let error = Some(lsp_server::ResponseError { code, message, data: None });
    let resp = lsp_server::Message::Response(lsp_server::Response { id, result: None, error });
    server.connection.sender.send(resp).map_err(|_| ServerError::TransportSendFailure)
}

/// Relies on lsp_server::Connection::handle_shutdown: for a request whose
/// method is the reserved shutdown method, it attempts to send the
/// acknowledging response (lsp-server discards that send's own result, so the
/// acknowledgement may or may not reach the sink), then waits for the exit
/// notification; its error reports a timeout, an unexpected message, or a
/// closed channel during that wait.
#[verifier::external_body]
pub(crate) fn acknowledge_shutdown(
    server: &mut LanguageServer,
    id: RequestId,
    method: String,
    params: serde_json::Value,
) -> (r: Result<bool, lsp_server::ProtocolError>)
    requires
        method@ == shutdown_method(),
    ensures
        final(server).lifecycle() == old(server).lifecycle(),
        final(server).received() == old(server).received(),
        final(server).trace() == old(server).trace(),
        final(server).sent() == old(server).sent().push(SentMsg::ShutdownAck { id: id })
            || final(server).sent() == old(server).sent(),
{
    let req = lsp_server::Request { id, method, params };
    server.connection.handle_shutdown(&req)
}

/// Relies on serde_json::Value::get and Value::as_u64: reads the line and
/// character of a completion request's `{position: {line, character}}`.
#[verifier::external_body]
pub(crate) fn parse_position(params: &serde_json::Value) -> (r: Option<Position>) {
    let pos = params.get("position")?;
    let line = u32::try_from(pos.get("line")?.as_u64()?).ok()?;
    let character = u32::try_from(pos.get("character")?.as_u64()?).ok()?;
    Some(Position { line, character })
}

/// Relies on serde_json::Value::get, Value::as_str and lsp_types::Url::parse:
/// reads and validates the `{textDocument: {uri}}` of a diagnostics request.
#[verifier::external_body]
pub(crate) fn parse_document_uri(params: &serde_json::Value) -> (r: Option<lsp_types::Url>) {
    lsp_types::Url::parse(params.get("textDocument")?.get("uri")?.as_str()?).ok()
}

/// Relies on serde_json::from_value for lsp_types::TextDocumentItem: reads the
/// document of a didOpen notification, moving its fields.
#[verifier::external_body]
pub(crate) fn parse_text_document_item(params: &serde_json::Value) -> (r: Option<
    TextDocumentItem,
>) {
    let raw: lsp_types::TextDocumentItem = serde_json::from_value(
        params.get("textDocument")?.clone(),
    ).ok()?;
    Some(
        TextDocumentItem {
            uri: raw.uri,
            language_id: raw.language_id,
            version: raw.version,
            text: raw.text,
        },
    )
}

/// Relies on serde_json::from_value for lsp_types::VersionedTextDocumentIdentifier
/// and lsp_types::TextDocumentContentChangeEvent: reads the document and the
/// changes of a didChange notification, moving their fields.
#[verifier::external_body]
pub(crate) fn parse_did_change(params: &serde_json::Value) -> (r: Option<
    (VersionedTextDocumentIdentifier, Vec<TextDocumentContentChangeEvent>),
>) {
    let doc: lsp_types::VersionedTextDocumentIdentifier = serde_json::from_value(
        params.get("textDocument")?.clone(),
    ).ok()?;
    let raw: Vec<lsp_types::TextDocumentContentChangeEvent> = serde_json::from_value(
        params.get("contentChanges")?.clone(),
    ).ok()?;
    let changes = raw.into_iter().map(|c| TextDocumentContentChangeEvent {
        range: c.range.map(|g| Range {
            start: Position { line: g.start.line, character: g.start.character },
            end: Position { line: g.end.line, character: g.end.character },
        }),
        text: c.text,
    }).collect();
    Some((VersionedTextDocumentIdentifier { uri: doc.uri, version: doc.version }, changes))
}

/// Relies on lsp_server::IoThreads::join: blocks until the background reader
/// and writer threads finish, so no in-flight wire traffic survives the
/// session; a late I/O error from them is treated as closure and dropped. It
/// sends nothing.
#[verifier::external_body]
pub(crate) fn join_transport_threads(server: &mut LanguageServer)
    ensures
        final(server).sent() == old(server).sent(),
        final(server).received() == old(server).received(),
        final(server).lifecycle() == old(server).lifecycle(),
        final(server).trace() == old(server).trace(),
        final(server).transport_joined(),
{
    if let Some(threads) = server.io_threads.take() {
        let _ = threads.join();
    }
}

} // verus!
