//! A reputation ledger: one profile per user, a bounded score computed from the
//! profile's signals, and a tier derived from the score.

pub mod authority;
pub mod error;
pub mod events;
pub mod identity;
pub mod instructions;
pub mod laws;
pub mod profile;
pub mod score;
pub mod store;
