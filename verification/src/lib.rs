//! An immutable record type for a hash-chained ledger.
//!
//! A [`block::Block`] is one unit of such a ledger: it carries a sequence
//! position, a payload, a reference to its predecessor's identity hash, and
//! its own identity hash. Until a real hashing collaborator is integrated,
//! the identity hash is a documented placeholder value.

pub mod block;
pub mod decimal;
