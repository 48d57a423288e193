//! Verified core of a catalog asset mirror: URL derivation, the idempotent
//! fetch protocol, download planning and progress accounting.

pub mod fetch;
pub mod naming;
pub mod orchestrator;
pub mod plan;
pub mod progress;
pub mod record;
pub mod status;
pub mod text;
