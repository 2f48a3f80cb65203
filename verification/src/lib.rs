//! Verified core of the MentorMinds governance contracts: the pause guardian
//! (circuit breaker), the timelock controller and the upgrade registry.
//!
//! Each contract's state lives in a plain struct whose fields mirror the
//! contract's instance storage; per-key persistent entries are handed to the
//! methods that use them. The methods decide, the host runs the effects.
pub mod common;
pub mod pause_guardian;
pub mod shared;
pub mod timelock;
pub mod upgrade_registry;
