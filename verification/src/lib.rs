//! Verified core of the serving layer of an agent server.
//!
//! The crate decides; its caller performs. Nothing here waits or touches a file: the registry
//! of sessions, the cleanup that follows a request, the protocol by which a session record
//! reaches the disk and the memory of an outbound stream are state machines whose steps carry
//! contracts. The asynchronous shell around them performs the actions that the steps ask for
//! and reports back what happened.
//!
//! - [`session`]: the registry, the lease of a request and its cleanup, the session store.
//! - [`streaming`]: telling a response that was read to its end from one that was abandoned.
//! - [`apis`]: what the handlers of the wire interfaces compute.
//! - [`llm`]: around the clients of language models.
//! - [`text`]: small pieces of text.

pub mod apis;
pub mod llm;
pub mod session;
pub mod streaming;
pub mod text;

pub use session::{
    Release, ReleaseAction, RequestLifecycle, Resolution, SessionData, SessionError,
    SessionManager, SessionManagerConfig, SessionPersist,
};
pub use streaming::DrainWatch;
