//! The ghost model of the outbound sink: the messages a session has handed to
//! its transport, and the predicates the dispatch contracts state over them.

use vstd::prelude::*;
use crate::protocol::{CompletionItemV, DiagnosticItemV, MessageType};
use lsp_server::RequestId;

verus! {

/// One message handed to the outbound sink, as the contracts see it: the
/// protocol payload reduced to its mathematical value, the wire encoding left
/// to the transport.
pub enum SentMsg {
    /// A success reply to a completion request: the literal item sequence.
    CompletionResponse { id: RequestId, items: Seq<CompletionItemV> },
    /// A success reply to a diagnostics request: the diagnostics wrapped in a
    /// full-document report envelope.
    DiagnosticsResponse { id: RequestId, diagnostics: Seq<DiagnosticItemV> },
    /// An error reply to a request whose payload was malformed.
    ErrorResponse { id: RequestId, code: int, message: Seq<char> },
    /// The acknowledgement of the shutdown request.
    ShutdownAck { id: RequestId },
    /// A `window/logMessage` notification.
    LogMessage { typ: MessageType, message: Seq<char> },
    /// A `textDocument/publishDiagnostics` notification.
    PublishDiagnostics { uri: lsp_types::Url, diagnostics: Seq<DiagnosticItemV> },
}

impl SentMsg {
    /// Whether this message is a reply to a request (notifications are not).
    pub open spec fn is_response(self) -> bool {
        match self {
            SentMsg::CompletionResponse { .. } => true,
            SentMsg::DiagnosticsResponse { .. } => true,
            SentMsg::ErrorResponse { .. } => true,
            SentMsg::ShutdownAck { .. } => true,
            SentMsg::LogMessage { .. } => false,
            SentMsg::PublishDiagnostics { .. } => false,
        }
    }

    /// The id of the request this message replies to; meaningful only when
    /// `is_response` holds.
    pub open spec fn response_id(self) -> RequestId {
        match self {
            SentMsg::CompletionResponse { id, .. } => id,
            SentMsg::DiagnosticsResponse { id, .. } => id,
            SentMsg::ErrorResponse { id, .. } => id,
            SentMsg::ShutdownAck { id } => id,
            SentMsg::LogMessage { .. } => arbitrary(),
            SentMsg::PublishDiagnostics { .. } => arbitrary(),
        }
    }
}

/// The messages that `post` holds beyond the prefix `pre`.
pub open spec fn appended_msgs(pre: Seq<SentMsg>, post: Seq<SentMsg>) -> Seq<SentMsg> {
    post.subrange(pre.len() as int, post.len() as int)
}

/// No message of `s` is a response.
pub open spec fn no_responses_in(s: Seq<SentMsg>) -> bool {
    forall|i: int| 0 <= i < s.len() ==> !(#[trigger] s[i]).is_response()
}

/// Every response in `s` replies to the request `id`.
pub open spec fn all_responses_for(s: Seq<SentMsg>, id: RequestId) -> bool {
    forall|i: int|
        0 <= i < s.len() && (#[trigger] s[i]).is_response() ==> s[i].response_id() == id
}

/// At most one message of `s` is a response.
pub open spec fn at_most_one_response(s: Seq<SentMsg>) -> bool {
    forall|i: int, j: int|
        0 <= i < s.len() && 0 <= j < s.len() && (#[trigger] s[i]).is_response()
            && (#[trigger] s[j]).is_response() ==> i == j
}

/// Every response in `msgs` replies to one of the request ids `ids`.
pub open spec fn all_responses_answer(msgs: Seq<SentMsg>, ids: Seq<RequestId>) -> bool {
    forall|i: int|
        0 <= i < msgs.len() && (#[trigger] msgs[i]).is_response() ==> ids.contains(
            msgs[i].response_id(),
        )
}

/// Appending splits: what grew from `pre` to `post` is what grew to `mid` and
/// then what grew from `mid`.
pub proof fn lemma_appended_transitive(pre: Seq<SentMsg>, mid: Seq<SentMsg>, post: Seq<SentMsg>)
    requires
        pre.is_prefix_of(mid),
        mid.is_prefix_of(post),
    ensures
        pre.is_prefix_of(post),
        appended_msgs(pre, post) == appended_msgs(pre, mid) + appended_msgs(mid, post),
{
    assert(appended_msgs(pre, post) =~= appended_msgs(pre, mid) + appended_msgs(mid, post));
    assert(pre =~= post.subrange(0, pre.len() as int));
}

/// A single push appends exactly that message.
pub proof fn lemma_appended_push(pre: Seq<SentMsg>, m: SentMsg)
    ensures
        pre.is_prefix_of(pre.push(m)),
        appended_msgs(pre, pre.push(m)) =~= seq![m],
{
    assert(pre =~= pre.push(m).subrange(0, pre.len() as int));
}

/// Growing a sequence of ids keeps everything it already contained.
pub proof fn lemma_prefix_keeps_contains(pre: Seq<RequestId>, post: Seq<RequestId>, id: RequestId)
    requires
        pre.is_prefix_of(post),
        pre.contains(id),
    ensures
        post.contains(id),
{
    let i = choose|i: int| 0 <= i < pre.len() && pre[i] == id;
    assert(post[i] == id);
}

} // verus!
