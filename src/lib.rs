//! Consistency audit of a snapshot of the global actor state tree.
//!
//! The library walks every entry of a state tree, classifies each actor by
//! its code identity, folds the findings of the kind-specific checkers into
//! a single report, and reconciles the sum of all balances against the
//! expected total supply.

pub mod address;
pub mod amount;
pub mod audit;
pub mod laws;
pub mod manifest;

pub use amount::TokenAmount;
pub use audit::{
    audit_tree, check_state_invariants, Actor, AuditError, Report, StateCheck, StateSummaries,
    Tree,
};
pub use manifest::{bytes_equal, ActorKind, Manifest};
