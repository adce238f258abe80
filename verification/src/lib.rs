//! State-transition logic of a liquid-staking pool: the registries of
//! validators and maintainers, the checks that gate changes to the pool
//! configuration, criteria-driven deactivation of validators, and the
//! consolidation of a validator's stake accounts.
//!
//! Every operation takes the pool configuration and the registries it touches
//! as explicit values, and either applies one transition or fails and leaves
//! them as they were.

pub mod account;
pub mod error;
pub mod instruction;
pub mod laws;
pub mod list;
pub mod process_management;
pub mod pubkey;
pub mod state;
