//! Alert lifecycle and monitoring engine for loan-expiry alerts: the cached
//! credential of the rule engine, the rule registration client, the expiry
//! poller with its notifications and deactivation, and bulk deregistration.
//!
//! The library decides; the program around it performs the reads and sends.

pub mod text;
pub mod registry;
pub mod hypernative;
pub mod message;
pub mod listener;
pub mod discord;
