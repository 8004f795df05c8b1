//! Decision logic of a pre-boot chainloader: which drivers to connect,
//! which milestones to signal and in what order, where the boot loader
//! image lives, and what to do when any of that fails.
//!
//! The firmware itself is never touched from here. Each component is a
//! transition function: it is handed the platform's reply to the previous
//! request and answers with the next request. The caller carries the
//! requests out.

pub mod builder;
pub mod connector;
pub mod device_path;
pub mod error;
pub mod locator;
pub mod locator_proofs;
pub mod orchestrator;
pub mod orchestrator_proofs;
pub mod platform;
pub mod signaler;
