//! The ghost trace of a session: what arrived, when the stream closed, which
//! callback each message was routed to, and when the handler's `init` ran.
//! The dispatch contracts are stated over this trace, so a loop that skips its
//! work cannot meet them.

use vstd::prelude::*;
use crate::protocol::{
    shutdown_method, Position, TextDocumentContentChangeEventV, TextDocumentItemV,
    VersionedTextDocumentIdentifierV,
};
use lsp_server::RequestId;

verus! {

/// A classified inbound message, as the trace sees it: the id and method of a
/// request, the method of a notification; payloads stay with the transport.
pub enum InboundView {
    Request { id: RequestId, method: Seq<char> },
    Reply,
    Notification { method: Seq<char> },
}

/// One observable step of a session.
pub enum SessionEvent {
    /// The handler's `init` callback ran.
    InitInvoked,
    /// The transport yielded one classified message.
    Arrived { msg: InboundView },
    /// The transport reported that the peer closed the stream.
    StreamClosed,
    /// The completion callback was invoked with a token for this request.
    CompletionInvoked { id: RequestId, position: Position },
    /// The diagnostics callback was invoked with a token for this request.
    DiagnosticsInvoked { id: RequestId, uri: lsp_types::Url },
    /// The document-opened callback was invoked with this document.
    OpenedInvoked { document: TextDocumentItemV },
    /// The document-changed callback was invoked with this document and these
    /// changes.
    ChangedInvoked {
        document: VersionedTextDocumentIdentifierV,
        changes: Seq<TextDocumentContentChangeEventV>,
    },
}

impl SessionEvent {
    /// Whether this event is the arrival of an inbound message.
    pub open spec fn is_arrival(self) -> bool {
        self is Arrived
    }

    /// Whether this event is the arrival of the reserved shutdown request.
    pub open spec fn is_shutdown_arrival(self) -> bool {
        match self {
            SessionEvent::Arrived { msg: InboundView::Request { method, .. } } => method
                == shutdown_method(),
            _ => false,
        }
    }
}

/// The events that `post` holds beyond the prefix `pre`.
pub open spec fn appended_events(pre: Seq<SessionEvent>, post: Seq<SessionEvent>) -> Seq<
    SessionEvent,
> {
    post.subrange(pre.len() as int, post.len() as int)
}

/// The trace opens with the one run of the `init` callback, and `init` never
/// runs again.
pub open spec fn init_first_and_once(tr: Seq<SessionEvent>) -> bool {
    &&& tr.len() >= 1
    &&& tr[0] == SessionEvent::InitInvoked
    &&& forall|i: int| 1 <= i < tr.len() ==> tr[i] != SessionEvent::InitInvoked
}

/// No message arrives after the shutdown request: once it is in the trace, it
/// is the last event of all.
pub open spec fn shutdown_arrival_ends(tr: Seq<SessionEvent>) -> bool {
    forall|i: int|
        0 <= i < tr.len() && (#[trigger] tr[i]).is_shutdown_arrival() ==> i == tr.len() - 1
}

/// The shutdown request has not arrived anywhere in `tr`.
pub open spec fn no_shutdown_arrival(tr: Seq<SessionEvent>) -> bool {
    forall|i: int| 0 <= i < tr.len() ==> !(#[trigger] tr[i]).is_shutdown_arrival()
}

/// Appending splits for traces, as for the outbound record.
pub proof fn lemma_events_transitive(
    pre: Seq<SessionEvent>,
    mid: Seq<SessionEvent>,
    post: Seq<SessionEvent>,
)
    requires
        pre.is_prefix_of(mid),
        mid.is_prefix_of(post),
    ensures
        pre.is_prefix_of(post),
        appended_events(pre, post) == appended_events(pre, mid) + appended_events(mid, post),
{
    assert(appended_events(pre, post) =~= appended_events(pre, mid) + appended_events(mid, post));
    assert(pre =~= post.subrange(0, pre.len() as int));
}

/// A single push appends exactly that event.
pub proof fn lemma_events_push(pre: Seq<SessionEvent>, e: SessionEvent)
    ensures
        pre.is_prefix_of(pre.push(e)),
        appended_events(pre, pre.push(e)) =~= seq![e],
{
    assert(pre =~= pre.push(e).subrange(0, pre.len() as int));
}

} // verus!
