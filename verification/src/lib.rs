//! Synchronisation and conflict reconciliation on top of a git object store.
//!
//! The crate converges a local repository with a named remote: it fetches,
//! classifies how the two histories relate, and then fast-forwards, merges or
//! replays. Content conflicts are settled in favour of the local side while
//! the remote side is kept in recoverable `.theirs` files.
pub mod analysis;
pub mod artifacts;
pub mod commit;
pub mod conflicts;
pub mod credentials;
pub mod error;
pub mod ids;
pub mod message;
pub mod model;
pub mod names;
pub mod pr_link;
pub mod reconcile;
pub mod resolve;
pub mod sync;
pub mod text;
pub mod transport;
pub mod trusted;
pub mod workflow;
