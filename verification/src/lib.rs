//! Point-in-time federation visibility for room events.
//!
//! Given the state snapshot that was in effect when an event was accepted,
//! [`Service::server_can_see_event`] decides whether a remote server may
//! receive that event, and remembers the decision per (server, snapshot).
//! Snapshots never change once written, so a remembered decision never goes
//! stale: the cache only ever evicts, it never invalidates.

pub mod cache;
pub mod content;
pub mod data;
pub mod error;
pub mod event;
pub mod guarantees;
pub mod identifiers;
pub mod service;

pub use cache::VisibilityCache;
pub use data::Data;
pub use data::Roster;
pub use error::Error;
pub use event::HistoryVisibility;
pub use event::MembershipState;
pub use event::PduEvent;
pub use event::StateEventType;
pub use service::Service;
