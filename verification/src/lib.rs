//! Client-side session and credential lifecycle for a backend authentication
//! service: acquiring, refreshing, persisting and invalidating user tokens,
//! and the entitlement profile that goes with them.
//!
//! The manager in [`manager`] holds the in-memory session and carries the
//! state machine. Network steps are split into request builders and response
//! readers, so the HTTP transport stays outside; the secret store is reached
//! through [`store`]; the durable credential record has its own reader and
//! writer in [`record`].

pub mod decimal;
pub mod errors;
pub mod escape;
pub mod manager;
pub mod record;
pub mod requests;
pub mod responses;
pub mod session;
pub mod store;
pub mod strutil;

pub use errors::AuthError;
pub use errors::StoreError;
pub use manager::AgentAuth;
pub use session::AuthToken;
pub use session::UserProfile;
