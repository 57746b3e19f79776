//! Verified core of a small note-keeping service.
//!
//! The library models the service's sole entity, a note, together with the
//! request and response shapes of its HTTP surface and the semantics of the
//! backing store: creation with unique titles, lookup by identifier, partial
//! update, and hard deletion.  Every operation carries a contract that pins
//! down both its successful and its failing outcomes, and the store's
//! invariants (unique identifiers, unique titles) are proved preserved.

pub mod handler;
pub mod laws;
pub mod note;
pub mod response;
pub mod schema;
pub mod store;
pub mod text;
