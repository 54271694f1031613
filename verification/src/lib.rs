//! A per-identity daily check-in ledger.
//!
//! The registry tracks, for each identity, a streak of consecutive
//! qualifying days, the best streak ever observed, a lifetime total of
//! accepted check-ins and a sticky achievement bitmask, gated by a strict
//! 24-hour cadence rule. Every accepted update is propagated to a
//! configured mirror endpoint through a fixed-layout payload; a check-in
//! whose notification fails is discarded whole.
//!
//! The [`validation`] module is a separate small service: the types and
//! pure request rules of a transaction-proof store whose RPC and HTTP
//! transport live with the surrounding program.

pub mod codec;
pub mod identity;
pub mod record;
pub mod registry;
pub mod rules;
pub mod validation;

pub use identity::Hash256;
pub use identity::Identity;
pub use record::RegistryError;
pub use record::UserSnapshot;
