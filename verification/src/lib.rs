//! Development-loop coordinator for a two-part (browser frontend / native
//! backend) application.
//!
//! The crate holds the decision logic of the loop: which filesystem paths are
//! relevant to a rebuild, how bursts of change events are debounced into
//! single triggers, how a failed build escalates to a verbose retry, how the
//! serve loop keeps at most one live server, and how the workspace directory
//! layout and the runtime metadata handoff are derived. The surrounding
//! process, filesystem and network work is left to an unverified driver that
//! feeds events into these functions and carries out the actions they return.

pub mod artifact;
pub mod devloop;
pub mod filter;
pub mod layout;
pub mod metadata;
pub mod pipeline;
pub mod supervisor;
pub mod watcher;
