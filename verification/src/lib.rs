//! A role-gated record store for an IT helpdesk: users, support tickets and
//! IT assets live in three keyed stores, draw their identifiers from one
//! monotonic allocator, and are mutated only through operations that check
//! the caller's claimed identity and role. Ticket status changes and comments
//! accumulate in append-only trails on the ticket itself.

pub mod assets;
pub mod laws;
pub mod state;
pub mod tickets;
pub mod types;
pub mod users;
