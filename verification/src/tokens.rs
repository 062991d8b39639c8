//! Single-use response tokens. The dispatcher mints one token per routed
//! request; a token is consumed by its one `respond` call, so a second
//! response through the same token is ruled out by construction.

use vstd::prelude::*;
use crate::outbound::SentMsg;
use crate::protocol::{
    completion_views, diagnostic_views, CompletionItem, DiagnosticItem, Position, ServerError,
};
use crate::server::LanguageServer;
use crate::transport::{send_completion_response, send_diagnostics_response};
use lsp_server::RequestId;

verus! {

/// The token of one completion request: the id to answer and the position the
/// client asked about.
pub struct CompletionRequest {
    id: RequestId,
    /// The document position completions are requested for.
    pub position: Position,
}

impl CompletionRequest {
    /// The id of the request this token answers.
    pub closed spec fn request_id(&self) -> RequestId {
        self.id
    }

    /// The position the client asked about, as the contracts see it.
    pub closed spec fn spec_position(&self) -> Position {
        self.position
    }

    /// Mints the token for a completion request.
    pub(crate) fn issue(id: RequestId, position: Position) -> (t: CompletionRequest)
        ensures
            t.request_id() == id,
            t.spec_position() == position,
    {
        CompletionRequest { id, position }
    }

    /// Sends the one success response of this request: its result is the
    /// literal item sequence. Consumes the token.
    pub fn respond(self, server: &mut LanguageServer, completions: Vec<CompletionItem>) -> (r:
        Result<(), ServerError>)
        ensures
            final(server).lifecycle() == old(server).lifecycle(),
            final(server).received() == old(server).received(),
            final(server).trace() == old(server).trace(),
            r is Ok ==> final(server).sent() == old(server).sent().push(
                SentMsg::CompletionResponse {
                    id: self.request_id(),
                    items: completion_views(completions@),
                },
            ),
            r is Err ==> final(server).sent() == old(server).sent() && r == Err::<(), ServerError>(
                ServerError::TransportSendFailure,
            ),
    {
        send_completion_response(server, self.id, &completions)
    }
}

/// The token of one diagnostics request: the id to answer and the document the
/// client asked about.
pub struct DiagnosticsRequest {
    id: RequestId,
    /// The document diagnostics are requested for.
    pub text_document: lsp_types::Url,
}

impl DiagnosticsRequest {
    /// The id of the request this token answers.
    pub closed spec fn request_id(&self) -> RequestId {
        self.id
    }

    /// The document the client asked about, as the contracts see it.
    pub closed spec fn spec_text_document(&self) -> lsp_types::Url {
        self.text_document
    }

    /// Mints the token for a diagnostics request.
    pub(crate) fn issue(id: RequestId, text_document: lsp_types::Url) -> (t: DiagnosticsRequest)
        ensures
            t.request_id() == id,
            t.spec_text_document() == text_document,
    {
        DiagnosticsRequest { id, text_document }
    }

    /// Sends the one success response of this request: the diagnostics wrapped
    /// in a full-document report envelope. Consumes the token.
    pub fn respond(self, server: &mut LanguageServer, diagnostics: Vec<DiagnosticItem>) -> (r:
        Result<(), ServerError>)
        ensures
            final(server).lifecycle() == old(server).lifecycle(),
            final(server).received() == old(server).received(),
            final(server).trace() == old(server).trace(),
            r is Ok ==> final(server).sent() == old(server).sent().push(
                SentMsg::DiagnosticsResponse {
                    id: self.request_id(),
                    diagnostics: diagnostic_views(diagnostics@),
                },
            ),
            r is Err ==> final(server).sent() == old(server).sent() && r == Err::<(), ServerError>(
                ServerError::TransportSendFailure,
            ),
    {
        send_diagnostics_response(server, self.id, &diagnostics)
    }
}

} // verus!
