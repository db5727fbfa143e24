//! Session-scoped update negotiation: a client asks whether a newer release
//! exists, is offered one, downloads it and reports back how that went. The
//! crate holds the session store, the negotiation engine that moves a
//! session from phase to phase, the composer of the three reply shapes and
//! the dispatcher that routes a request line to the engine.

pub mod text;
pub mod http;
pub mod header;
pub mod protocol;
pub mod version;
pub mod session;
pub mod token;
pub mod compose;
pub mod engine;
pub mod dispatch;
pub mod guarantees;
