//! Per-app permission grants: which apps (identified by the SHA-256 of
//! their binary) may use which capabilities, each Allow/Deny with a scope of
//! Once/Session/Always. mitos-service holds the rulebook; this module holds
//! just enough shape (`model`) to read what it says back, and the protocol
//! of its plain-text control socket (`service_client`).

pub mod model;
pub mod service_client;

pub use model::{Decision, Grant, Risk, Scope, Sha256Hex};
pub use service_client::{CheckResult, GrantResult};
