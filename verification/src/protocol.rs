//! Plain protocol data: positions, ranges, diagnostics, completion items,
//! log-message severities, text-document payload shapes, the method names the
//! dispatcher recognizes, and the error taxonomy of the library.

use vstd::prelude::*;
use vstd::string::StringExecFns;

verus! {

/// A zero-based line/character position inside a text document.
#[derive(Clone, Copy, Debug, PartialEq, Eq, Structural)]
pub struct Position {
    pub line: u32,
    pub character: u32,
}

/// A half-open span between two positions of a text document.
#[derive(Clone, Copy, Debug, PartialEq, Eq, Structural)]
pub struct Range {
    pub start: Position,
    pub end: Position,
}

/// The severity of a diagnostic.
#[derive(Clone, Copy, Debug, PartialEq, Eq, Structural)]
pub enum DiagnosticSeverity {
    Error,
    Warning,
    Information,
    Hint,
}

/// A reported issue: a range of the document, a severity, and a message.
#[derive(Clone, Debug)]
pub struct DiagnosticItem {
    pub range: Range,
    pub severity: DiagnosticSeverity,
    pub message: String,
}

/// The mathematical value of a [`DiagnosticItem`]: the message as a character
/// sequence, the rest as plain values.
pub struct DiagnosticItemV {
    pub range: Range,
    pub severity: DiagnosticSeverity,
    pub message: Seq<char>,
}

impl View for DiagnosticItem {
    type V = DiagnosticItemV;

    open spec fn view(&self) -> DiagnosticItemV {
        DiagnosticItemV { range: self.range, severity: self.severity, message: self.message@ }
    }
}

/// One completion proposal, reduced to the label shown to the user.
#[derive(Clone, Debug)]
pub struct CompletionItem {
    pub label: String,
}

/// The mathematical value of a [`CompletionItem`].
pub struct CompletionItemV {
    pub label: Seq<char>,
}

impl View for CompletionItem {
    type V = CompletionItemV;

    open spec fn view(&self) -> CompletionItemV {
        CompletionItemV { label: self.label@ }
    }
}

/// The values of a sequence of diagnostics.
pub open spec fn diagnostic_views(s: Seq<DiagnosticItem>) -> Seq<DiagnosticItemV> {
    s.map_values(|d: DiagnosticItem| d@)
}

/// The values of a sequence of completion items.
pub open spec fn completion_views(s: Seq<CompletionItem>) -> Seq<CompletionItemV> {
    s.map_values(|c: CompletionItem| c@)
}

/// The severity of an outbound log-message notification.
#[derive(Clone, Copy, Debug, PartialEq, Eq, Structural)]
pub enum MessageType {
    Error,
    Warning,
    Info,
    Log,
}

/// The document named by a `textDocument/didOpen` notification.
#[derive(Clone, Debug)]
pub struct TextDocumentItem {
    pub uri: lsp_types::Url,
    pub language_id: String,
    pub version: i32,
    pub text: String,
}

/// The mathematical value of a [`TextDocumentItem`].
pub struct TextDocumentItemV {
    pub uri: lsp_types::Url,
    pub language_id: Seq<char>,
    pub version: int,
    pub text: Seq<char>,
}

impl View for TextDocumentItem {
    type V = TextDocumentItemV;

    open spec fn view(&self) -> TextDocumentItemV {
        TextDocumentItemV {
            uri: self.uri,
            language_id: self.language_id@,
            version: self.version as int,
            text: self.text@,
        }
    }
}

/// The document named by a `textDocument/didChange` notification.
#[derive(Clone, Debug)]
pub struct VersionedTextDocumentIdentifier {
    pub uri: lsp_types::Url,
    pub version: i32,
}

/// The mathematical value of a [`VersionedTextDocumentIdentifier`].
pub struct VersionedTextDocumentIdentifierV {
    pub uri: lsp_types::Url,
    pub version: int,
}

impl View for VersionedTextDocumentIdentifier {
    type V = VersionedTextDocumentIdentifierV;

    open spec fn view(&self) -> VersionedTextDocumentIdentifierV {
        VersionedTextDocumentIdentifierV { uri: self.uri, version: self.version as int }
    }
}

/// One change of a `textDocument/didChange` notification: the changed range,
/// absent under full document synchronization, and the new text.
#[derive(Clone, Debug)]
pub struct TextDocumentContentChangeEvent {
    pub range: Option<Range>,
    pub text: String,
}

/// The mathematical value of a [`TextDocumentContentChangeEvent`].
pub struct TextDocumentContentChangeEventV {
    pub range: Option<Range>,
    pub text: Seq<char>,
}

impl View for TextDocumentContentChangeEvent {
    type V = TextDocumentContentChangeEventV;

    open spec fn view(&self) -> TextDocumentContentChangeEventV {
        TextDocumentContentChangeEventV { range: self.range, text: self.text@ }
    }
}

/// The values of a sequence of changes.
pub open spec fn change_views(s: Seq<TextDocumentContentChangeEvent>) -> Seq<
    TextDocumentContentChangeEventV,
> {
    s.map_values(|c: TextDocumentContentChangeEvent| c@)
}

/// What can go wrong while a session runs. Malformed inbound payloads are not
/// here: the dispatcher reports them to the client and drops the message.
#[derive(Clone, Copy, Debug, PartialEq, Eq, Structural)]
pub enum ServerError {
    /// The initialize exchange failed; the session never starts running.
    HandshakeFailure,
    /// The outbound sink rejected a message.
    TransportSendFailure,
    /// The shutdown exchange went wrong after the shutdown request arrived.
    ShutdownProtocol,
}

/// The reserved method that ends the session.
pub open spec fn shutdown_method() -> Seq<char> {
    "shutdown"@
}

/// The request method routed to the completion callback.
pub open spec fn completion_method() -> Seq<char> {
    "textDocument/completion"@
}

/// The request method routed to the diagnostics callback.
pub open spec fn diagnostic_method() -> Seq<char> {
    "textDocument/diagnostic"@
}

/// The notification method routed to the document-opened callback.
pub open spec fn did_open_method() -> Seq<char> {
    "textDocument/didOpen"@
}

/// The notification method routed to the document-changed callback.
pub open spec fn did_change_method() -> Seq<char> {
    "textDocument/didChange"@
}

/// The request methods the dispatcher routes; every other request is only
/// reported in a warning log.
pub open spec fn recognized_request_method(m: Seq<char>) -> bool {
    m == shutdown_method() || m == completion_method() || m == diagnostic_method()
}

/// The notification methods the dispatcher routes; every other notification is
/// only reported in a warning log.
pub open spec fn recognized_notification_method(m: Seq<char>) -> bool {
    m == did_open_method() || m == did_change_method()
}

/// The warning logged for a request whose method is not recognized.
pub open spec fn unrecognized_request_note(method: Seq<char>) -> Seq<char> {
    "unrecognized request: "@ + method
}

/// The warning logged for a notification whose method is not recognized.
pub open spec fn unrecognized_notification_note(method: Seq<char>) -> Seq<char> {
    "unrecognized notification: "@ + method
}

/// The warning logged for a recognized notification whose payload does not
/// deserialize to the shape its method calls for.
pub open spec fn malformed_notification_note(method: Seq<char>) -> Seq<char> {
    "malformed notification payload: "@ + method
}

/// The message of the error response sent for a recognized request whose
/// payload does not hold the fields its method calls for.
pub open spec fn malformed_request_note(method: Seq<char>) -> Seq<char> {
    "malformed request payload: "@ + method
}

/// The JSON-RPC error code for a request whose parameters are invalid.
pub const INVALID_PARAMS_CODE: i32 = -32602;

/// Whether a method string equals a method literal.
pub fn method_equals(method: &String, literal: &str) -> (r: bool)
    ensures
        r == (method@ == literal@),
{
    let owned: String = literal.to_owned();
    *method == owned
}

/// Prefixes a method name with a fixed note.
pub fn note_with_method(note: &str, method: &String) -> (r: String)
    ensures
        r@ == note@ + method@,
{
    let owned: String = note.to_owned();
    owned.concat(method.as_str())
}

} // verus!
