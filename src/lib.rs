//! Bearer-token verification against rotating keys, and atomic, auditable
//! mutation of per-user economy ledgers.

/// Identities, and the steps that turn a bearer token into one.
pub mod auth;
/// Ledgers, their currencies and errors, and the events a mutation yields.
pub mod game_struct;
/// The decisions of the store transaction around one mutation.
pub mod transaction;
