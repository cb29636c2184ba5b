//! Match-lifecycle reconciliation for game-server webhooks: which series and
//! match an event belongs to, which persisted team each in-game slot is, when
//! a series is complete, and in which order archival and teardown happen.
pub mod archive;
pub mod dathost;
pub mod error;
pub mod identity;
pub mod lifecycle;
pub mod models;
pub mod overview;
pub mod progress;
pub mod protocol;
pub mod reconcile;
pub mod replay;
pub mod teardown;
