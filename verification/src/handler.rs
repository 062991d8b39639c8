//! The capability callbacks an embedding application may override. Every slot
//! defaults to a no-op; each carries the contract the dispatcher relies on: a
//! callback only appends to the outbound record, and it answers at most its
//! own request.

use vstd::prelude::*;
use crate::protocol::{
    TextDocumentContentChangeEvent, TextDocumentItem, VersionedTextDocumentIdentifier,
};
use crate::server::{notifies_only, responds_at_most_once, LanguageServer};
use crate::tokens::{CompletionRequest, DiagnosticsRequest};

verus! {

/// The named capability slots. Override only what the server supports; an
/// unset slot leaves its messages unhandled (requests stay unanswered, which
/// the protocol allows the dispatcher to do only by never minting the token —
/// see the dispatch routing).
#[allow(unused_variables)]
pub trait LanguageServerHandler: Sized {
    /// Runs once, after the handshake and before the first message is pulled.
    fn init(&self, server: &mut LanguageServer)
        ensures
            notifies_only(*old(server), *final(server)),
    {
    }

    /// Runs for each completion request; answer through the token.
    fn completion(&self, server: &mut LanguageServer, req: CompletionRequest)
        ensures
            responds_at_most_once(*old(server), *final(server), req.request_id()),
    {
    }

    /// Runs for each diagnostics request; answer through the token.
    fn diagnostics(&self, server: &mut LanguageServer, req: DiagnosticsRequest)
        ensures
            responds_at_most_once(*old(server), *final(server), req.request_id()),
    {
    }

    /// Runs when the client opens a text document.
    fn text_document_opened(&self, server: &mut LanguageServer, document: TextDocumentItem)
        ensures
            notifies_only(*old(server), *final(server)),
    {
    }

    /// Runs when the client changes a text document.
    fn text_document_changed(
        &self,
        server: &mut LanguageServer,
        document: VersionedTextDocumentIdentifier,
        changes: Vec<TextDocumentContentChangeEvent>,
    )
        ensures
            notifies_only(*old(server), *final(server)),
    {
    }

    /// Runs when the client saves a text document.
    fn text_document_saved(&self, server: &mut LanguageServer, document: TextDocumentItem)
        ensures
            notifies_only(*old(server), *final(server)),
    {
    }

    /// Runs when the client closes a text document.
    fn text_document_closed(&self, server: &mut LanguageServer, document: TextDocumentItem)
        ensures
            notifies_only(*old(server), *final(server)),
    {
    }
}

} // verus!
