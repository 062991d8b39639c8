//! A small dispatch front-end for the language-server protocol: it classifies
//! inbound messages, routes them to capability callbacks, and hands each
//! request callback a single-use token that can send exactly one reply of the
//! protocol-correct shape for its method.
//!
//! The outbound traffic of a running server is modelled by a ghost sequence of
//! [`outbound::SentMsg`] values; every sending operation states in its
//! contract exactly which message it appends to that sequence.

pub mod handler;
pub mod laws;
pub mod outbound;
pub mod protocol;
pub mod server;
pub mod tokens;
pub mod trace;
pub mod transport;

pub use handler::LanguageServerHandler;
pub use server::DispatchOutcome;
pub use server::InboundMessage;
pub use server::LanguageServer;
pub use server::RunExit;
pub use server::SessionState;
pub use tokens::CompletionRequest;
pub use tokens::DiagnosticsRequest;
pub use protocol::CompletionItem;
pub use protocol::DiagnosticItem;
pub use protocol::DiagnosticSeverity;
pub use protocol::MessageType;
pub use protocol::Position;
pub use protocol::Range;
pub use protocol::ServerError;
pub use protocol::TextDocumentContentChangeEvent;
pub use protocol::TextDocumentItem;
pub use protocol::VersionedTextDocumentIdentifier;
