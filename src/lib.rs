//! The contract between a bare-metal host kernel and an extension module:
//! the capability table that the kernel hands over, and the decisions that
//! the module's entry point takes on it.
//!
//! Every capability is optional. The module tests presence before each use,
//! and the entry point is a state machine whose every action is backed by a
//! capability that is present.
pub mod table;
pub mod entry;
pub mod laws;
