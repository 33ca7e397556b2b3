//! Provisioning logic for an exchange protocol on a Starknet ledger: wire
//! encoding of signed quantities, deterministic deployment addresses, fee
//! caps, idempotent class declaration and the calls that bring a pool up.

pub mod felt;
pub mod codec;
pub mod selector;
pub mod invoke;
pub mod gateway;
pub mod deploy;
pub mod registrar;
pub mod artifact;
pub mod plan;
pub mod config;
pub mod flow;
pub mod confirm;
