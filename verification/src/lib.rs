//! Authorization and allowance-accounting core of a centrally administered
//! fungible-asset issuer.
//!
//! The library decides who may mint, burn, freeze, or blacklist, and it
//! enforces per-principal spending limits and a global transfer gate. Token
//! balances themselves live at an external token backend: handlers here
//! return outbound instructions as plain data, and an unverified adapter
//! hands them to that backend.

pub mod address;
pub mod contract;
pub mod error;
pub mod execute;
pub mod helpers;
pub mod laws;
pub mod msg;
pub mod state;
