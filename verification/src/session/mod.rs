//! Sessions: the registry that finds or creates them, the cleanup that follows each request,
//! and the store that keeps their conversation on disk.

pub mod clock;
pub mod durability;
pub mod ident;
pub mod lifecycle;
pub mod manager;
pub mod paths;
pub mod persist;

pub use lifecycle::{Release, ReleaseAction, RequestLifecycle};
pub use persist::{SessionData, SessionPersist};
pub use manager::{Resolution, SessionError, SessionManager, SessionManagerConfig};
