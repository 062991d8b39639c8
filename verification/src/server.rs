//! The session: lifecycle states, the classified inbound messages, the
//! dispatcher that routes each message to a capability callback, and the
//! outbound notification helpers.

use vstd::prelude::*;
use crate::handler::LanguageServerHandler;
use crate::outbound::{
    all_responses_answer, all_responses_for, appended_msgs, at_most_one_response,
    lemma_appended_push, lemma_appended_transitive, lemma_prefix_keeps_contains, no_responses_in,
    SentMsg,
};
use crate::protocol::{
    change_views, diagnostic_views, malformed_notification_note, malformed_request_note,
    method_equals, note_with_method, recognized_notification_method, recognized_request_method,
    shutdown_method, unrecognized_notification_note, unrecognized_request_note, DiagnosticItem,
    MessageType, Position, ServerError, TextDocumentItemV, INVALID_PARAMS_CODE,
};
use crate::tokens::{CompletionRequest, DiagnosticsRequest};
use crate::trace::{
    appended_events, init_first_and_once, lemma_events_push, lemma_events_transitive,
    no_shutdown_arrival, shutdown_arrival_ends, InboundView, SessionEvent,
};
use crate::transport::{
    acknowledge_shutdown, capabilities_json, initialize_handshake, join_transport_threads,
    next_inbound, parse_did_change, parse_document_uri, parse_position, parse_text_document_item,
    send_error_response, send_log_message, send_publish_diagnostics, stdio_connection,
};
use lsp_server::RequestId;

verus! {

/// Where a session stands in its life: handshaking, draining messages,
/// winding down after a shutdown request, or torn down for good.
#[derive(Clone, Copy, Debug, PartialEq, Eq, Structural)]
pub enum SessionState {
    Init,
    Running,
    ShuttingDown,
    Terminated,
}

/// What the dispatcher decided about one message: keep pulling, or stop
/// because the shutdown request arrived.
#[derive(Clone, Copy, Debug, PartialEq, Eq, Structural)]
pub enum DispatchOutcome {
    Proceed,
    Shutdown,
}

/// Why a successful run returned: the peer closed the stream, the shutdown
/// request was handled, or the run's message budget ran out.
#[derive(Clone, Copy, Debug, PartialEq, Eq, Structural)]
pub enum RunExit {
    PeerClosed,
    ShutDown,
    OutOfBudget,
}

/// One classified inbound message: a request that demands a reply, a reply to
/// a request of the server's own (discarded: the server asks nothing), or a
/// notification.
pub enum InboundMessage {
    Request { id: RequestId, method: String, params: serde_json::Value },
    Reply { response: lsp_server::Response },
    Notification { method: String, params: serde_json::Value },
}

impl View for InboundMessage {
    type V = InboundView;

    open spec fn view(&self) -> InboundView {
        match self {
            InboundMessage::Request { id, method, .. } => InboundView::Request {
                id: *id,
                method: method@,
            },
            InboundMessage::Reply { .. } => InboundView::Reply,
            InboundMessage::Notification { method, .. } => InboundView::Notification {
                method: method@,
            },
        }
    }
}

/// A language server session: the transport, the lifecycle state, and the
/// ghost record of the outbound sink, the received request ids, and the
/// session's event trace.
pub struct LanguageServer {
    pub(crate) connection: lsp_server::Connection,
    pub(crate) io_threads: Option<lsp_server::IoThreads>,
    pub(crate) params: Option<serde_json::Value>,
    pub(crate) state: SessionState,
    pub(crate) sent_log: Ghost<Seq<SentMsg>>,
    pub(crate) received_ids: Ghost<Seq<RequestId>>,
    pub(crate) events: Ghost<Seq<SessionEvent>>,
    pub(crate) joined: Ghost<bool>,
}

impl LanguageServer {
    /// Every message the dispatch core has handed to the outbound sink, oldest
    /// first. What the transport sends on its own during the handshake and the
    /// shutdown wait stays with the transport.
    pub closed spec fn sent(&self) -> Seq<SentMsg> {
        self.sent_log@
    }

    /// The id of every request this session has received, oldest first.
    pub closed spec fn received(&self) -> Seq<RequestId> {
        self.received_ids@
    }

    /// The lifecycle state of the session.
    pub closed spec fn lifecycle(&self) -> SessionState {
        self.state
    }

    /// The session's event trace: arrivals, stream closure, callback
    /// invocations, and the run of `init`.
    pub closed spec fn trace(&self) -> Seq<SessionEvent> {
        self.events@
    }

    /// The parameters the initialize handshake negotiated, if one was run.
    pub closed spec fn negotiated_params(&self) -> Option<serde_json::Value> {
        self.params
    }

    /// Whether the session's teardown has run: no background transport thread
    /// remains, so no in-flight wire traffic survives the session.
    pub closed spec fn transport_joined(&self) -> bool {
        self.joined@
    }

    /// The lifecycle state, for callers outside the proof.
    pub fn state(&self) -> (s: SessionState)
        ensures
            s == self.lifecycle(),
    {
        self.state
    }

    /// The negotiated handshake parameters, for callers outside the proof.
    pub fn initialize_params(&self) -> (r: &Option<serde_json::Value>)
        ensures
            *r == self.negotiated_params(),
    {
        &self.params
    }
}

/// What every capability callback leaves untouched: the outbound record only
/// grows, and the lifecycle state, the received requests and the event trace
/// do not move — the trace is the dispatcher's to write.
pub open spec fn callback_frame(pre: LanguageServer, post: LanguageServer) -> bool {
    &&& pre.sent().is_prefix_of(post.sent())
    &&& post.lifecycle() == pre.lifecycle()
    &&& post.received() == pre.received()
    &&& post.trace() == pre.trace()
}

/// A callback that holds no request token sends notifications at most, never
/// a response.
pub open spec fn notifies_only(pre: LanguageServer, post: LanguageServer) -> bool {
    &&& callback_frame(pre, post)
    &&& no_responses_in(appended_msgs(pre.sent(), post.sent()))
}

/// A callback holding the token of request `id` sends at most one response,
/// and any response it sends answers `id`.
pub open spec fn responds_at_most_once(
    pre: LanguageServer,
    post: LanguageServer,
    id: RequestId,
) -> bool {
    &&& callback_frame(pre, post)
    &&& all_responses_for(appended_msgs(pre.sent(), post.sent()), id)
    &&& at_most_one_response(appended_msgs(pre.sent(), post.sent()))
}

/// The dispatcher writes only routing events: it never invents an arrival and
/// never re-runs `init`.
pub open spec fn dispatch_trace_frame(pre: LanguageServer, post: LanguageServer) -> bool {
    let grown = appended_events(pre.trace(), post.trace());
    &&& pre.trace().is_prefix_of(post.trace())
    &&& forall|i: int|
        0 <= i < grown.len() ==> !((#[trigger] grown[i]) is InitInvoked) && !grown[i].is_arrival()
}

/// The completion request `id` was routed: either its callback was invoked
/// with a token carrying the id and the parsed position, or the payload did
/// not parse and exactly the invalid-params error response answers it.
pub open spec fn completion_routed_or_rejected(
    pre: LanguageServer,
    post: LanguageServer,
    id: RequestId,
    method: Seq<char>,
) -> bool {
    ||| (exists|p: Position|
        post.trace() == pre.trace().push(SessionEvent::CompletionInvoked { id, position: p }))
    ||| {
        &&& post.trace() == pre.trace()
        &&& post.sent() == pre.sent().push(
            SentMsg::ErrorResponse {
                id,
                code: INVALID_PARAMS_CODE as int,
                message: malformed_request_note(method),
            },
        )
    }
}

/// The diagnostics request `id` was routed: either its callback was invoked
/// with a token carrying the id and the parsed document, or the payload did
/// not parse and exactly the invalid-params error response answers it.
pub open spec fn diagnostics_routed_or_rejected(
    pre: LanguageServer,
    post: LanguageServer,
    id: RequestId,
    method: Seq<char>,
) -> bool {
    ||| (exists|u: lsp_types::Url|
        post.trace() == pre.trace().push(SessionEvent::DiagnosticsInvoked { id, uri: u }))
    ||| {
        &&& post.trace() == pre.trace()
        &&& post.sent() == pre.sent().push(
            SentMsg::ErrorResponse {
                id,
                code: INVALID_PARAMS_CODE as int,
                message: malformed_request_note(method),
            },
        )
    }
}

/// A didOpen notification was routed: either the document-opened callback was
/// invoked with the parsed document, or the payload did not parse and exactly
/// one malformed-payload warning was logged.
pub open spec fn opened_routed_or_warned(
    pre: LanguageServer,
    post: LanguageServer,
    method: Seq<char>,
) -> bool {
    ||| (exists|d: TextDocumentItemV|
        post.trace() == pre.trace().push(SessionEvent::OpenedInvoked { document: d }))
    ||| {
        &&& post.trace() == pre.trace()
        &&& post.sent() == pre.sent().push(
            SentMsg::LogMessage {
                typ: MessageType::Warning,
                message: malformed_notification_note(method),
            },
        )
    }
}

/// A didChange notification was routed: either the document-changed callback
/// was invoked with the parsed document and changes, or the payload did not
/// parse and exactly one malformed-payload warning was logged.
pub open spec fn changed_routed_or_warned(
    pre: LanguageServer,
    post: LanguageServer,
    method: Seq<char>,
) -> bool {
    ||| (exists|e: SessionEvent|
        post.trace() == pre.trace().push(e) && e is ChangedInvoked)
    ||| {
        &&& post.trace() == pre.trace()
        &&& post.sent() == pre.sent().push(
            SentMsg::LogMessage {
                typ: MessageType::Warning,
                message: malformed_notification_note(method),
            },
        )
    }
}

/// What dispatching one message guarantees, by the kind of the message.
pub open spec fn dispatch_post(
    pre: LanguageServer,
    post: LanguageServer,
    msg: InboundMessage,
    r: Result<DispatchOutcome, ServerError>,
) -> bool {
    let grown = appended_msgs(pre.sent(), post.sent());
    &&& pre.sent().is_prefix_of(post.sent())
    &&& post.received() == pre.received()
    &&& dispatch_trace_frame(pre, post)
    &&& (r is Err ==> r == Err::<DispatchOutcome, ServerError>(ServerError::TransportSendFailure)
        || r == Err::<DispatchOutcome, ServerError>(ServerError::ShutdownProtocol))
    &&& match msg {
        InboundMessage::Request { id, method, .. } => {
            &&& all_responses_for(grown, id)
            &&& at_most_one_response(grown)
            &&& (method@ == shutdown_method() ==> {
                &&& post.lifecycle() == SessionState::ShuttingDown
                &&& post.trace() == pre.trace()
                &&& (r is Ok ==> r == Ok::<DispatchOutcome, ServerError>(
                    DispatchOutcome::Shutdown,
                ))
                &&& (grown =~= seq![SentMsg::ShutdownAck { id }] || grown =~= Seq::<
                    SentMsg,
                >::empty())
            })
            &&& (method@ != shutdown_method() ==> {
                &&& post.lifecycle() == pre.lifecycle()
                &&& (r is Ok ==> r == Ok::<DispatchOutcome, ServerError>(
                    DispatchOutcome::Proceed,
                ))
                &&& (r is Err ==> post.sent() == pre.sent() && post.trace() == pre.trace())
            })
            &&& (method@ == crate::protocol::completion_method() && r is Ok
                ==> completion_routed_or_rejected(pre, post, id, method@))
            &&& (method@ == crate::protocol::diagnostic_method() && r is Ok
                ==> diagnostics_routed_or_rejected(pre, post, id, method@))
            &&& (!recognized_request_method(method@) ==> {
                &&& post.trace() == pre.trace()
                &&& (r is Ok ==> grown =~= seq![
                    SentMsg::LogMessage {
                        typ: MessageType::Warning,
                        message: unrecognized_request_note(method@),
                    },
                ])
            })
        },
        InboundMessage::Reply { .. } => {
            &&& post.sent() == pre.sent()
            &&& post.lifecycle() == pre.lifecycle()
            &&& post.trace() == pre.trace()
            &&& r == Ok::<DispatchOutcome, ServerError>(DispatchOutcome::Proceed)
        },
        InboundMessage::Notification { method, .. } => {
            &&& no_responses_in(grown)
            &&& post.lifecycle() == pre.lifecycle()
            &&& (r is Ok ==> r == Ok::<DispatchOutcome, ServerError>(DispatchOutcome::Proceed))
            &&& (r is Err ==> post.sent() == pre.sent() && post.trace() == pre.trace())
            &&& (method@ == crate::protocol::did_open_method() && r is Ok
                ==> opened_routed_or_warned(pre, post, method@))
            &&& (method@ == crate::protocol::did_change_method() && r is Ok
                ==> changed_routed_or_warned(pre, post, method@))
            &&& (!recognized_notification_method(method@) ==> {
                &&& post.trace() == pre.trace()
                &&& (r is Ok ==> grown =~= seq![
                    SentMsg::LogMessage {
                        typ: MessageType::Warning,
                        message: unrecognized_notification_note(method@),
                    },
                ])
            })
        },
    }
}

impl LanguageServer {
    /// Wraps an already-initialized transport in a session: nothing sent,
    /// nothing received, an empty trace, lifecycle at the start.
    pub fn from_connection(connection: lsp_server::Connection) -> (s: LanguageServer)
        ensures
            s.lifecycle() == SessionState::Init,
            s.sent() == Seq::<SentMsg>::empty(),
            s.received() == Seq::<RequestId>::empty(),
            s.trace() == Seq::<SessionEvent>::empty(),
            s.negotiated_params() is None,
            !s.transport_joined(),
    {
        LanguageServer {
            connection,
            io_threads: None,
            params: None,
            state: SessionState::Init,
            sent_log: Ghost(Seq::empty()),
            received_ids: Ghost(Seq::empty()),
            events: Ghost(Seq::empty()),
            joined: Ghost(false),
        }
    }

    /// Sends a log-message notification to the client. Each call hands exactly
    /// one notification to the sink, never a response. The session is taken
    /// exclusively so the send is recorded in the ghost outbound log; the wire
    /// sink itself is thread-safe.
    pub fn log(&mut self, msg: String, message_type: MessageType) -> (r: Result<(), ServerError>)
        ensures
            final(self).lifecycle() == old(self).lifecycle(),
            final(self).received() == old(self).received(),
            final(self).trace() == old(self).trace(),
            r is Ok ==> final(self).sent() == old(self).sent().push(
                SentMsg::LogMessage { typ: message_type, message: msg@ },
            ),
            r is Err ==> final(self).sent() == old(self).sent() && r == Err::<(), ServerError>(
                ServerError::TransportSendFailure,
            ),
    {
        send_log_message(self, msg, message_type)
    }

    /// Sends a publish-diagnostics notification for one document. Each call
    /// hands exactly one notification to the sink, never a response. The
    /// session is taken exclusively so the send is recorded in the ghost
    /// outbound log; the wire sink itself is thread-safe.
    pub fn send_diagnostics(
        &mut self,
        file_uri: lsp_types::Url,
        diagnostics: Vec<DiagnosticItem>,
    ) -> (r: Result<(), ServerError>)
        ensures
            final(self).lifecycle() == old(self).lifecycle(),
            final(self).received() == old(self).received(),
            final(self).trace() == old(self).trace(),
            r is Ok ==> final(self).sent() == old(self).sent().push(
                SentMsg::PublishDiagnostics {
                    uri: file_uri,
                    diagnostics: diagnostic_views(diagnostics@),
                },
            ),
            r is Err ==> final(self).sent() == old(self).sent() && r == Err::<(), ServerError>(
                ServerError::TransportSendFailure,
            ),
    {
        send_publish_diagnostics(self, file_uri, &diagnostics)
    }

    /// Routes one classified message: the shutdown request ends the session,
    /// recognized methods reach their callback (a request through a fresh
    /// single-use token, a request with a malformed payload gets an error
    /// response instead), and every unrecognized method is only reported in
    /// one warning log. Notifications and inbound replies never produce a
    /// response. Each routing is recorded in the session's trace.
    pub fn dispatch_message<H: LanguageServerHandler>(
        &mut self,
        handler: &H,
        msg: InboundMessage,
    ) -> (r: Result<DispatchOutcome, ServerError>)
        requires
            old(self).lifecycle() == SessionState::Running,
        ensures
            dispatch_post(*old(self), *final(self), msg, r),
    {
        proof {
            reveal_strlit("shutdown");
            reveal_strlit("textDocument/completion");
            reveal_strlit("textDocument/diagnostic");
            reveal_strlit("textDocument/didOpen");
            reveal_strlit("textDocument/didChange");
            assert(shutdown_method().len() == 8);
            assert(crate::protocol::completion_method().len() == 23);
            assert(crate::protocol::diagnostic_method().len() == 23);
            assert(shutdown_method() != crate::protocol::completion_method());
            assert(shutdown_method() != crate::protocol::diagnostic_method());
            assert(crate::protocol::completion_method()[13] == 'c');
            assert(crate::protocol::diagnostic_method()[13] == 'd');
            assert(crate::protocol::completion_method() != crate::protocol::diagnostic_method());
            assert(crate::protocol::did_open_method().len() == 20);
            assert(crate::protocol::did_change_method().len() == 22);
            assert(crate::protocol::did_open_method() != crate::protocol::did_change_method());
        }
        match msg {
            InboundMessage::Request { id, method, params } => {
                if method_equals(&method, "shutdown") {
                    self.state = SessionState::ShuttingDown;
                    let ghost pre = self.sent();
                    let acked = acknowledge_shutdown(self, id, method, params);
                    proof {
                        lemma_appended_push(pre, SentMsg::ShutdownAck { id });
                        assert(pre =~= pre.subrange(0, pre.len() as int));
                        assert(appended_msgs(pre, pre) =~= Seq::<SentMsg>::empty());
                        assert(appended_events(self.trace(), self.trace()) =~= Seq::<
                            SessionEvent,
                        >::empty());
                    }
                    match acked {
                        Ok(_) => Ok(DispatchOutcome::Shutdown),
                        Err(_) => Err(ServerError::ShutdownProtocol),
                    }
                } else if method_equals(&method, "textDocument/completion") {
                    match parse_position(&params) {
                        Some(position) => {
                            let ghost pre_ev = self.trace();
                            let ghost gid = id;
                            self.events = Ghost(
                                self.events@.push(
                                    SessionEvent::CompletionInvoked { id, position },
                                ),
                            );
                            let req = CompletionRequest::issue(id, position);
                            handler.completion(self, req);
                            proof {
                                lemma_events_push(
                                    pre_ev,
                                    SessionEvent::CompletionInvoked { id: gid, position },
                                );
                                assert(self.trace() == pre_ev.push(
                                    SessionEvent::CompletionInvoked { id: gid, position },
                                ));
                                assert(exists|p: Position|
                                    self.trace() == pre_ev.push(
                                        SessionEvent::CompletionInvoked { id: gid, position: p },
                                    ));
                            }
                            Ok(DispatchOutcome::Proceed)
                        },
                        None => self.reject_malformed_request(id, &method),
                    }
                } else if method_equals(&method, "textDocument/diagnostic") {
                    match parse_document_uri(&params) {
                        Some(uri) => {
                            let ghost pre_ev = self.trace();
                            let ghost gid = id;
                            let ghost guri = uri;
                            self.events = Ghost(
                                self.events@.push(SessionEvent::DiagnosticsInvoked { id, uri }),
                            );
                            let req = DiagnosticsRequest::issue(id, uri);
                            handler.diagnostics(self, req);
                            proof {
                                lemma_events_push(
                                    pre_ev,
                                    SessionEvent::DiagnosticsInvoked { id: gid, uri: guri },
                                );
                                assert(self.trace() == pre_ev.push(
                                    SessionEvent::DiagnosticsInvoked { id: gid, uri: guri },
                                ));
                                assert(exists|u: lsp_types::Url|
                                    self.trace() == pre_ev.push(
                                        SessionEvent::DiagnosticsInvoked { id: gid, uri: u },
                                    ));
                            }
                            Ok(DispatchOutcome::Proceed)
                        },
                        None => self.reject_malformed_request(id, &method),
                    }
                } else {
                    let note = note_with_method("unrecognized request: ", &method);
                    let ghost pre = self.sent();
                    let logged = self.log(note, MessageType::Warning);
                    proof {
                        lemma_appended_push(
                            pre,
                            SentMsg::LogMessage {
                                typ: MessageType::Warning,
                                message: unrecognized_request_note(method@),
                            },
                        );
                        assert(pre =~= pre.subrange(0, pre.len() as int));
                        assert(appended_events(self.trace(), self.trace()) =~= Seq::<
                            SessionEvent,
                        >::empty());
                    }
                    match logged {
                        Ok(_) => Ok(DispatchOutcome::Proceed),
                        Err(e) => Err(e),
                    }
                }
            },
            InboundMessage::Reply { .. } => {
                proof {
                    assert(appended_msgs(self.sent(), self.sent()) =~= Seq::<SentMsg>::empty());
                    assert(self.sent() =~= self.sent().subrange(0, self.sent().len() as int));
                    assert(appended_events(self.trace(), self.trace()) =~= Seq::<
                        SessionEvent,
                    >::empty());
                    assert(self.trace() =~= self.trace().subrange(0, self.trace().len() as int));
                }
                Ok(DispatchOutcome::Proceed)
            },
            InboundMessage::Notification { method, params } => {
                if method_equals(&method, "textDocument/didOpen") {
                    match parse_text_document_item(&params) {
                        Some(document) => {
                            let ghost pre_ev = self.trace();
                            let ghost gdoc = document@;
                            self.events = Ghost(
                                self.events@.push(
                                    SessionEvent::OpenedInvoked { document: document@ },
                                ),
                            );
                            handler.text_document_opened(self, document);
                            proof {
                                lemma_events_push(
                                    pre_ev,
                                    SessionEvent::OpenedInvoked { document: gdoc },
                                );
                                assert(self.trace() == pre_ev.push(
                                    SessionEvent::OpenedInvoked { document: gdoc },
                                ));
                                assert(exists|d: TextDocumentItemV|
                                    self.trace() == pre_ev.push(
                                        SessionEvent::OpenedInvoked { document: d },
                                    ));
                            }
                            Ok(DispatchOutcome::Proceed)
                        },
                        None => self.warn_malformed_notification(&method),
                    }
                } else if method_equals(&method, "textDocument/didChange") {
                    match parse_did_change(&params) {
                        Some((document, changes)) => {
                            let ghost pre_ev = self.trace();
                            let ghost ev = SessionEvent::ChangedInvoked {
                                document: document@,
                                changes: change_views(changes@),
                            };
                            self.events = Ghost(self.events@.push(ev));
                            handler.text_document_changed(self, document, changes);
                            proof {
                                lemma_events_push(pre_ev, ev);
                                assert(self.trace() == pre_ev.push(ev));
                                assert(exists|e: SessionEvent|
                                    self.trace() == pre_ev.push(e) && e is ChangedInvoked);
                            }
                            Ok(DispatchOutcome::Proceed)
                        },
                        None => self.warn_malformed_notification(&method),
                    }
                } else {
                    let note = note_with_method("unrecognized notification: ", &method);
                    let ghost pre = self.sent();
                    let logged = self.log(note, MessageType::Warning);
                    proof {
                        lemma_appended_push(
                            pre,
                            SentMsg::LogMessage {
                                typ: MessageType::Warning,
                                message: unrecognized_notification_note(method@),
                            },
                        );
                        assert(pre =~= pre.subrange(0, pre.len() as int));
                        assert(appended_events(self.trace(), self.trace()) =~= Seq::<
                            SessionEvent,
                        >::empty());
                    }
                    match logged {
                        Ok(_) => Ok(DispatchOutcome::Proceed),
                        Err(e) => Err(e),
                    }
                }
            },
        }
    }

    /// Drives a session to its end: records and invokes the handler's `init`
    /// once, before anything else, then pulls inbound messages strictly in
    /// arrival order and dispatches each before the next, until the shutdown
    /// request arrives, the peer closes the channel, the transport fails, or
    /// the run's message budget is spent; then joins the transport threads
    /// exactly once and terminates. The trace shows `init` first and only
    /// once, no arrival after the shutdown request, and why the run ended;
    /// every response the whole run hands to the sink answers a request that
    /// was actually received.
    pub fn run<H: LanguageServerHandler>(&mut self, handler: &H) -> (r: Result<
        RunExit,
        ServerError,
    >)
        requires
            old(self).lifecycle() == SessionState::Init,
        ensures
            final(self).lifecycle() == SessionState::Terminated,
            final(self).transport_joined(),
            old(self).sent().is_prefix_of(final(self).sent()),
            old(self).received().is_prefix_of(final(self).received()),
            old(self).trace().is_prefix_of(final(self).trace()),
            all_responses_answer(
                appended_msgs(old(self).sent(), final(self).sent()),
                final(self).received(),
            ),
            init_first_and_once(appended_events(old(self).trace(), final(self).trace())),
            shutdown_arrival_ends(appended_events(old(self).trace(), final(self).trace())),
            r == Ok::<RunExit, ServerError>(RunExit::PeerClosed) ==> final(self).trace().last()
                == SessionEvent::StreamClosed,
            r == Ok::<RunExit, ServerError>(RunExit::ShutDown)
                ==> final(self).trace().last().is_shutdown_arrival(),
            r is Err ==> r == Err::<RunExit, ServerError>(ServerError::TransportSendFailure) || r
                == Err::<RunExit, ServerError>(ServerError::ShutdownProtocol),
    {
        let ghost sent0 = self.sent();
        let ghost recv0 = self.received();
        let ghost ev0 = self.trace();
        self.events = Ghost(self.events@.push(SessionEvent::InitInvoked));
        proof {
            lemma_events_push(ev0, SessionEvent::InitInvoked);
        }
        handler.init(self);
        self.state = SessionState::Running;
        let mut outcome: Result<RunExit, ServerError> = Ok(RunExit::OutOfBudget);
        // One call handles at most usize::MAX messages; the counter is the
        // loop's termination measure, and spending it is a visible exit.
        let mut budget: usize = usize::MAX;
        loop
            invariant_except_break
                self.lifecycle() == SessionState::Running,
                outcome == Ok::<RunExit, ServerError>(RunExit::OutOfBudget),
                no_shutdown_arrival(appended_events(ev0, self.trace())),
            invariant
                sent0.is_prefix_of(self.sent()),
                recv0.is_prefix_of(self.received()),
                ev0.is_prefix_of(self.trace()),
                all_responses_answer(appended_msgs(sent0, self.sent()), self.received()),
                init_first_and_once(appended_events(ev0, self.trace())),
            ensures
                sent0.is_prefix_of(self.sent()),
                recv0.is_prefix_of(self.received()),
                ev0.is_prefix_of(self.trace()),
                all_responses_answer(appended_msgs(sent0, self.sent()), self.received()),
                init_first_and_once(appended_events(ev0, self.trace())),
                shutdown_arrival_ends(appended_events(ev0, self.trace())),
                outcome == Ok::<RunExit, ServerError>(RunExit::PeerClosed) ==> self.trace().last()
                    == SessionEvent::StreamClosed,
                outcome == Ok::<RunExit, ServerError>(RunExit::ShutDown)
                    ==> self.trace().last().is_shutdown_arrival(),
                outcome is Err ==> outcome == Err::<RunExit, ServerError>(
                    ServerError::TransportSendFailure,
                ) || outcome == Err::<RunExit, ServerError>(ServerError::ShutdownProtocol),
            decreases budget,
        {
            if budget == 0 {
                proof {
                    lemma_no_shutdown_means_ends(appended_events(ev0, self.trace()));
                }
                break ;
            }
            budget = budget - 1;
            let ghost turn_recv = self.received();
            let ghost turn_ev = self.trace();
            let next = next_inbound(self);
            proof {
                assert forall|i: int|
                    0 <= i < appended_msgs(sent0, self.sent()).len() && (#[trigger] appended_msgs(
                        sent0,
                        self.sent(),
                    )[i]).is_response() implies self.received().contains(
                    appended_msgs(sent0, self.sent())[i].response_id(),
                ) by {
                    lemma_prefix_keeps_contains(
                        turn_recv,
                        self.received(),
                        appended_msgs(sent0, self.sent())[i].response_id(),
                    );
                }
            }
            match next {
                None => {
                    proof {
                        lemma_events_transitive(ev0, turn_ev, self.trace());
                        lemma_trace_grew_by_one(
                            ev0,
                            turn_ev,
                            self.trace(),
                            SessionEvent::StreamClosed,
                        );
                        lemma_no_shutdown_means_ends(appended_events(ev0, self.trace()));
                        assert(self.trace().last() == SessionEvent::StreamClosed);
                    }
                    outcome = Ok(RunExit::PeerClosed);
                    break ;
                },
                Some(msg) => {
                    let ghost mid_sent = self.sent();
                    let ghost mid_recv = self.received();
                    let ghost mid_ev = self.trace();
                    let ghost turn_msg = msg;
                    proof {
                        lemma_events_transitive(ev0, turn_ev, self.trace());
                        lemma_trace_grew_by_one(
                            ev0,
                            turn_ev,
                            self.trace(),
                            SessionEvent::Arrived { msg: turn_msg@ },
                        );
                    }
                    let stop = self.dispatch_message(handler, msg);
                    proof {
                        lemma_appended_transitive(sent0, mid_sent, self.sent());
                        lemma_events_transitive(ev0, mid_ev, self.trace());
                        if let InboundMessage::Request { id, .. } = turn_msg {
                            assert(mid_recv == turn_recv.push(id));
                            assert(mid_recv[mid_recv.len() - 1] == id);
                            assert(mid_recv.contains(id));
                        }
                        assert forall|i: int|
                            0 <= i < appended_msgs(sent0, self.sent()).len() && (
                            #[trigger] appended_msgs(sent0, self.sent())[i]).is_response() implies self.received().contains(
                            appended_msgs(sent0, self.sent())[i].response_id(),
                        ) by {
                            let grown_old = appended_msgs(sent0, mid_sent);
                            let grown_new = appended_msgs(mid_sent, self.sent());
                            let m = appended_msgs(sent0, self.sent())[i];
                            if i < grown_old.len() {
                                assert(m == grown_old[i]);
                            } else {
                                assert(m == grown_new[i - grown_old.len()]);
                            }
                        }
                        lemma_routing_keeps_init_and_arrivals(ev0, mid_ev, self.trace());
                    }
                    match stop {
                        Ok(DispatchOutcome::Proceed) => {
                            proof {
                                assert(!SessionEvent::Arrived {
                                    msg: turn_msg@,
                                }.is_shutdown_arrival());
                                lemma_no_new_shutdown(ev0, turn_ev, mid_ev, self.trace(), turn_msg@);
                            }
                        },
                        Ok(DispatchOutcome::Shutdown) => {
                            proof {
                                lemma_shutdown_break(ev0, turn_ev, self.trace(), turn_msg@);
                            }
                            outcome = Ok(RunExit::ShutDown);
                            break ;
                        },
                        Err(e) => {
                            proof {
                                if (SessionEvent::Arrived { msg: turn_msg@ }).is_shutdown_arrival() {
                                    lemma_shutdown_break(ev0, turn_ev, self.trace(), turn_msg@);
                                } else {
                                    lemma_no_new_shutdown(
                                        ev0,
                                        turn_ev,
                                        mid_ev,
                                        self.trace(),
                                        turn_msg@,
                                    );
                                    lemma_no_shutdown_means_ends(
                                        appended_events(ev0, self.trace()),
                                    );
                                }
                            }
                            outcome = Err(e);
                            break ;
                        },
                    }
                },
            }
        }
        join_transport_threads(self);
        self.state = SessionState::Terminated;
        outcome
    }

    /// Creates a language server over standard input and output: establishes
    /// the transport, performs the initialize handshake (a failed handshake
    /// never enters the running state and is reported as such), and drives the
    /// session to its end with the given handler. On success the returned
    /// session is terminated, holds the negotiated parameters, its trace shows
    /// `init` ran once before everything and nothing arrived after the
    /// shutdown request, and every response it ever sent answers a request it
    /// received. An error is decided by the peer and the transport:
    /// `HandshakeFailure` before anything ran, the transport errors after a
    /// session that was still torn down in order.
    pub fn new<H: LanguageServerHandler>(
        capabilities: &lsp_types::ServerCapabilities,
        handler: H,
    ) -> (r: Result<LanguageServer, ServerError>)
        ensures
            match r {
                Ok(s) => {
                    &&& s.lifecycle() == SessionState::Terminated
                    &&& s.transport_joined()
                    &&& s.negotiated_params() is Some
                    &&& init_first_and_once(s.trace())
                    &&& shutdown_arrival_ends(s.trace())
                    &&& all_responses_answer(s.sent(), s.received())
                },
                Err(_) => true,
            },
    {
        let (connection, io_threads) = stdio_connection();
        let capabilities_value = capabilities_json(capabilities);
        let mut server = LanguageServer {
            connection,
            io_threads: Some(io_threads),
            params: None,
            state: SessionState::Init,
            sent_log: Ghost(Seq::empty()),
            received_ids: Ghost(Seq::empty()),
            events: Ghost(Seq::empty()),
            joined: Ghost(false),
        };
        let params = match initialize_handshake(&server.connection, capabilities_value) {
            Ok(p) => p,
            Err(_) => {
                return Err(ServerError::HandshakeFailure);
            },
        };
        let outcome = server.run(&handler);
        server.params = Some(params);
        proof {
            assert(appended_msgs(Seq::<SentMsg>::empty(), server.sent()) =~= server.sent());
            assert(appended_events(Seq::<SessionEvent>::empty(), server.trace())
                =~= server.trace());
        }
        match outcome {
            Ok(_) => Ok(server),
            Err(e) => Err(e),
        }
    }

    /// Answers a recognized request whose payload lacks the fields its method
    /// calls for with one invalid-params error response bearing the request's
    /// id; the request is otherwise dropped.
    fn reject_malformed_request(&mut self, id: RequestId, method: &String) -> (r: Result<
        DispatchOutcome,
        ServerError,
    >)
        ensures
            old(self).sent().is_prefix_of(final(self).sent()),
            all_responses_for(appended_msgs(old(self).sent(), final(self).sent()), id),
            at_most_one_response(appended_msgs(old(self).sent(), final(self).sent())),
            final(self).lifecycle() == old(self).lifecycle(),
            final(self).received() == old(self).received(),
            final(self).trace() == old(self).trace(),
            r is Ok ==> r == Ok::<DispatchOutcome, ServerError>(DispatchOutcome::Proceed)
                && final(self).sent() == old(self).sent().push(
                SentMsg::ErrorResponse {
                    id,
                    code: INVALID_PARAMS_CODE as int,
                    message: malformed_request_note(method@),
                },
            ),
            r is Err ==> final(self).sent() == old(self).sent() && r == Err::<
                DispatchOutcome,
                ServerError,
            >(ServerError::TransportSendFailure),
    {
        let note = note_with_method("malformed request payload: ", method);
        let ghost pre = self.sent();
        let sent = send_error_response(self, id, INVALID_PARAMS_CODE, note);
        proof {
            lemma_appended_push(
                pre,
                SentMsg::ErrorResponse {
                    id,
                    code: INVALID_PARAMS_CODE as int,
                    message: malformed_request_note(method@),
                },
            );
            assert(pre =~= pre.subrange(0, pre.len() as int));
            assert(appended_msgs(pre, pre) =~= Seq::<SentMsg>::empty());
        }
        match sent {
            Ok(_) => Ok(DispatchOutcome::Proceed),
            Err(e) => Err(e),
        }
    }

    /// Logs one warning for a recognized notification whose payload did not
    /// have the shape its method calls for; the message is dropped.
    fn warn_malformed_notification(&mut self, method: &String) -> (r: Result<
        DispatchOutcome,
        ServerError,
    >)
        ensures
            old(self).sent().is_prefix_of(final(self).sent()),
            no_responses_in(appended_msgs(old(self).sent(), final(self).sent())),
            final(self).lifecycle() == old(self).lifecycle(),
            final(self).received() == old(self).received(),
            final(self).trace() == old(self).trace(),
            r is Ok ==> r == Ok::<DispatchOutcome, ServerError>(DispatchOutcome::Proceed)
                && final(self).sent() == old(self).sent().push(
                SentMsg::LogMessage {
                    typ: MessageType::Warning,
                    message: malformed_notification_note(method@),
                },
            ),
            r is Err ==> final(self).sent() == old(self).sent() && r == Err::<
                DispatchOutcome,
                ServerError,
            >(ServerError::TransportSendFailure),
    {
        let note = note_with_method("malformed notification payload: ", method);
        let ghost pre = self.sent();
        let logged = self.log(note, MessageType::Warning);
        proof {
            lemma_appended_push(
                pre,
                SentMsg::LogMessage {
                    typ: MessageType::Warning,
                    message: malformed_notification_note(method@),
                },
            );
            assert(pre =~= pre.subrange(0, pre.len() as int));
        }
        match logged {
            Ok(_) => Ok(DispatchOutcome::Proceed),
            Err(e) => Err(e),
        }
    }
}

/// A trace with no shutdown arrival trivially has it last.
proof fn lemma_no_shutdown_means_ends(tr: Seq<SessionEvent>)
    requires
        no_shutdown_arrival(tr),
    ensures
        shutdown_arrival_ends(tr),
{
}

/// One received message extends the trace by exactly its arrival (or the
/// closure mark): what grew before stays, the new event is last.
proof fn lemma_trace_grew_by_one(
    ev0: Seq<SessionEvent>,
    pre: Seq<SessionEvent>,
    post: Seq<SessionEvent>,
    e: SessionEvent,
)
    requires
        ev0.is_prefix_of(pre),
        post == pre.push(e),
        init_first_and_once(appended_events(ev0, pre)),
        !(e is InitInvoked),
    ensures
        ev0.is_prefix_of(post),
        init_first_and_once(appended_events(ev0, post)),
        appended_events(ev0, post) == appended_events(ev0, pre).push(e),
        post.last() == e,
{
    lemma_events_push(pre, e);
    lemma_events_transitive(ev0, pre, post);
    assert(appended_events(ev0, post) =~= appended_events(ev0, pre).push(e));
}

/// Dispatching appends only routing events, so what held of `init` and of
/// arrivals still holds.
proof fn lemma_routing_keeps_init_and_arrivals(
    ev0: Seq<SessionEvent>,
    mid: Seq<SessionEvent>,
    post: Seq<SessionEvent>,
)
    requires
        ev0.is_prefix_of(mid),
        mid.is_prefix_of(post),
        init_first_and_once(appended_events(ev0, mid)),
        forall|i: int|
            0 <= i < appended_events(mid, post).len() ==> !((#[trigger] appended_events(
                mid,
                post,
            )[i]) is InitInvoked) && !appended_events(mid, post)[i].is_arrival(),
    ensures
        init_first_and_once(appended_events(ev0, post)),
{
    lemma_events_transitive(ev0, mid, post);
    let before = appended_events(ev0, mid);
    let grown = appended_events(mid, post);
    let whole = appended_events(ev0, post);
    assert(whole == before + grown);
    assert(whole[0] == before[0]);
    assert forall|i: int| 1 <= i < whole.len() implies whole[i] != SessionEvent::InitInvoked by {
        if i < before.len() {
            assert(whole[i] == before[i]);
        } else {
            assert(whole[i] == grown[i - before.len()]);
        }
    }
}

/// A dispatched non-shutdown message leaves the trace without any shutdown
/// arrival: the one arrival this turn is not one, and routing events are no
/// arrivals.
proof fn lemma_no_new_shutdown(
    ev0: Seq<SessionEvent>,
    turn: Seq<SessionEvent>,
    mid: Seq<SessionEvent>,
    post: Seq<SessionEvent>,
    msg: InboundView,
)
    requires
        ev0.is_prefix_of(turn),
        mid == turn.push(SessionEvent::Arrived { msg }),
        mid.is_prefix_of(post),
        no_shutdown_arrival(appended_events(ev0, turn)),
        !(SessionEvent::Arrived { msg }).is_shutdown_arrival(),
        forall|i: int|
            0 <= i < appended_events(mid, post).len() ==> !(#[trigger] appended_events(
                mid,
                post,
            )[i]).is_arrival(),
    ensures
        no_shutdown_arrival(appended_events(ev0, post)),
{
    lemma_events_push(turn, SessionEvent::Arrived { msg });
    lemma_events_transitive(ev0, turn, mid);
    lemma_events_transitive(ev0, mid, post);
    let before = appended_events(ev0, turn);
    let grown = appended_events(mid, post);
    let whole = appended_events(ev0, post);
    assert(whole == (before + seq![SessionEvent::Arrived { msg }]) + grown);
    assert forall|i: int| 0 <= i < whole.len() implies !(#[trigger] whole[i]).is_shutdown_arrival() by {
        if i < before.len() {
            assert(whole[i] == before[i]);
        } else if i == before.len() {
            assert(whole[i] == SessionEvent::Arrived { msg });
        } else {
            assert(whole[i] == grown[i - before.len() - 1]);
            assert(!whole[i].is_arrival());
        }
    }
}

/// When the shutdown request is the message of this turn and dispatching it
/// left the trace alone, its arrival ends the trace.
proof fn lemma_shutdown_break(
    ev0: Seq<SessionEvent>,
    turn: Seq<SessionEvent>,
    post: Seq<SessionEvent>,
    msg: InboundView,
)
    requires
        ev0.is_prefix_of(turn),
        post == turn.push(SessionEvent::Arrived { msg }),
        no_shutdown_arrival(appended_events(ev0, turn)),
    ensures
        shutdown_arrival_ends(appended_events(ev0, post)),
        post.last() == (SessionEvent::Arrived { msg }),
{
    lemma_events_push(turn, SessionEvent::Arrived { msg });
    lemma_events_transitive(ev0, turn, post);
    let before = appended_events(ev0, turn);
    let whole = appended_events(ev0, post);
    assert(whole == before + seq![SessionEvent::Arrived { msg }]);
    assert forall|i: int|
        0 <= i < whole.len() && (#[trigger] whole[i]).is_shutdown_arrival() implies i == whole.len()
        - 1 by {
        if i < before.len() {
            assert(whole[i] == before[i]);
        }
    }
}

} // verus!
