//! Session state for a resource-constrained MQTT client.
//!
//! The crate holds the authoritative record of a client's identity (broker
//! address and client identifier), its volatile session data (connection
//! flag, keep-alive interval, maximum packet size, pending subscriptions),
//! and the allocator for the 16-bit packet identifiers that correlate
//! requests with acknowledgements.  The allocator never emits zero, and a
//! reset restores every volatile field while leaving identity untouched.

pub mod addr;
pub mod bounded;
pub mod session_state;

pub use session_state::SessionError;
pub use session_state::SessionState;
pub use session_state::SessionView;
