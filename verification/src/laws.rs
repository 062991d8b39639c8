//! The guarantees of the dispatch core, each written out and proved from the
//! contracts of the dispatcher, the tokens and the notification helpers.

use vstd::prelude::*;
use crate::outbound::{
    all_responses_for, appended_msgs, at_most_one_response, no_responses_in, SentMsg,
};
use crate::protocol::{
    recognized_request_method, unrecognized_notification_note, unrecognized_request_note,
    MessageType, ServerError,
};
use crate::server::{
    changed_routed_or_warned, completion_routed_or_rejected, diagnostics_routed_or_rejected,
    dispatch_post, opened_routed_or_warned, DispatchOutcome, InboundMessage, LanguageServer,
    SessionState,
};
use lsp_server::RequestId;

verus! {

/// Law: dispatching a request draws at most one response, and any response it
/// draws bears the id of that request — whatever the method, the payload, and
/// the handler. A recognized non-shutdown request is routed: its callback gets
/// a token bearing the id, or the malformed payload gets the one exact
/// invalid-params error response.
pub proof fn law_request_answered_at_most_once(
    pre: LanguageServer,
    post: LanguageServer,
    id: RequestId,
    method: String,
    params: serde_json::Value,
    r: Result<DispatchOutcome, ServerError>,
)
    requires
        dispatch_post(pre, post, InboundMessage::Request { id, method, params }, r),
    ensures
        all_responses_for(appended_msgs(pre.sent(), post.sent()), id),
        at_most_one_response(appended_msgs(pre.sent(), post.sent())),
        method@ == crate::protocol::completion_method() && r is Ok
            ==> completion_routed_or_rejected(pre, post, id, method@),
        method@ == crate::protocol::diagnostic_method() && r is Ok
            ==> diagnostics_routed_or_rejected(pre, post, id, method@),
{
}

/// Law: a request whose method is not recognized draws no response; when the
/// dispatch succeeds it emits exactly one warning log describing the request.
pub proof fn law_unrecognized_request_only_logged(
    pre: LanguageServer,
    post: LanguageServer,
    id: RequestId,
    method: String,
    params: serde_json::Value,
    r: Result<DispatchOutcome, ServerError>,
)
    requires
        dispatch_post(pre, post, InboundMessage::Request { id, method, params }, r),
        !recognized_request_method(method@),
    ensures
        no_responses_in(appended_msgs(pre.sent(), post.sent())),
        r is Ok ==> appended_msgs(pre.sent(), post.sent()) =~= seq![
            SentMsg::LogMessage {
                typ: MessageType::Warning,
                message: unrecognized_request_note(method@),
            },
        ],
{
    let grown = appended_msgs(pre.sent(), post.sent());
    if r is Ok {
        assert(grown =~= seq![
            SentMsg::LogMessage {
                typ: MessageType::Warning,
                message: unrecognized_request_note(method@),
            },
        ]);
        assert forall|i: int| 0 <= i < grown.len() implies !(#[trigger] grown[i]).is_response() by {
            assert(grown[i] == SentMsg::LogMessage {
                typ: MessageType::Warning,
                message: unrecognized_request_note(method@),
            });
        }
    } else {
        assert(grown =~= Seq::<SentMsg>::empty());
    }
}

/// Law: dispatching a notification never draws a response, whether or not its
/// method is recognized and whatever its payload holds; a recognized one is
/// routed to its callback or, malformed, warned about; an unrecognized one
/// draws exactly one warning log on success.
pub proof fn law_notification_never_answered(
    pre: LanguageServer,
    post: LanguageServer,
    method: String,
    params: serde_json::Value,
    r: Result<DispatchOutcome, ServerError>,
)
    requires
        dispatch_post(pre, post, InboundMessage::Notification { method, params }, r),
    ensures
        no_responses_in(appended_msgs(pre.sent(), post.sent())),
        method@ == crate::protocol::did_open_method() && r is Ok ==> opened_routed_or_warned(
            pre,
            post,
            method@,
        ),
        method@ == crate::protocol::did_change_method() && r is Ok ==> changed_routed_or_warned(
            pre,
            post,
            method@,
        ),
        !crate::protocol::recognized_notification_method(method@) && r is Ok
            ==> appended_msgs(pre.sent(), post.sent()) =~= seq![
            SentMsg::LogMessage {
                typ: MessageType::Warning,
                message: unrecognized_notification_note(method@),
            },
        ],
{
}

/// Law: dispatching an inbound reply discards it: nothing is sent.
pub proof fn law_inbound_reply_discarded(
    pre: LanguageServer,
    post: LanguageServer,
    response: lsp_server::Response,
    r: Result<DispatchOutcome, ServerError>,
)
    requires
        dispatch_post(pre, post, InboundMessage::Reply { response }, r),
    ensures
        post.sent() == pre.sent(),
        r == Ok::<DispatchOutcome, ServerError>(DispatchOutcome::Proceed),
{
}

/// Law: the shutdown request moves the session out of the running state, and a
/// successful dispatch of it reports that the loop must stop; at most the
/// acknowledgement answers it, bearing its id.
pub proof fn law_shutdown_stops_the_loop(
    pre: LanguageServer,
    post: LanguageServer,
    id: RequestId,
    method: String,
    params: serde_json::Value,
    r: Result<DispatchOutcome, ServerError>,
)
    requires
        dispatch_post(pre, post, InboundMessage::Request { id, method, params }, r),
        method@ == crate::protocol::shutdown_method(),
    ensures
        post.lifecycle() == SessionState::ShuttingDown,
        post.trace() == pre.trace(),
        r is Ok ==> r == Ok::<DispatchOutcome, ServerError>(DispatchOutcome::Shutdown),
        all_responses_for(appended_msgs(pre.sent(), post.sent()), id),
        at_most_one_response(appended_msgs(pre.sent(), post.sent())),
{
}

/// Law: handing the sink a single response for request `id` — as a consumed
/// token's `respond` states it does — sends exactly one response, and it bears
/// that id. A second response through the same token needs a second `respond`
/// call, which the move of the token rules out.
pub proof fn law_single_response(
    pre: LanguageServer,
    post: LanguageServer,
    m: SentMsg,
    id: RequestId,
)
    requires
        post.sent() == pre.sent().push(m),
        m.is_response(),
        m.response_id() == id,
    ensures
        appended_msgs(pre.sent(), post.sent()) =~= seq![m],
        all_responses_for(appended_msgs(pre.sent(), post.sent()), id),
        at_most_one_response(appended_msgs(pre.sent(), post.sent())),
        appended_msgs(pre.sent(), post.sent()).len() == 1,
        appended_msgs(pre.sent(), post.sent())[0].is_response(),
{
    crate::outbound::lemma_appended_push(pre.sent(), m);
}

} // verus!
