//! Verified core of a publish/subscribe/query session façade.
//!
//! The crate models the operation surface of a distributed overlay session:
//! one-shot operations (`put`, `delete`, `get`), declarative registrations
//! (publishers, subscribers, pull-subscribers, queryables), peer discovery
//! (`scout`), the option-overlay protocol that validates per-operation
//! overrides before any network action, and the callback bridge that turns
//! a handler failure into a fatal, reported termination.
//!
//! Network submission and event delivery belong to the surrounding program:
//! every operation here builds a fully validated request value and states
//! exactly what that value holds.

pub mod bridge;
pub mod model;
pub mod options;
pub mod pull;
pub mod scout;
pub mod session;
pub mod text;
pub mod types;
