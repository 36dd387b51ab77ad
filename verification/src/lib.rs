//! Keeps a managed DNS address record in step with the host's public address.
//!
//! The crate holds the decisions of the reconciliation daemon and nothing that
//! touches the outside world: the persisted last known address and its file
//! format, the apply-or-skip rule, the shape of a provider update, and the
//! scheduler that orders the steps of a cycle. Whoever drives it performs the
//! actions the scheduler asks for (resolve, read, call the provider, write,
//! sleep) and reports what came of them.

pub mod config;
pub mod error;
pub mod external;
pub mod json;
pub mod persistent;
pub mod providers;
pub mod reconciler;
pub mod scheduler;
