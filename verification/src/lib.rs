//! Verified core of the Stackable monitoring operator: the custom resource model,
//! the Prometheus configuration model and template data, semantic version handling
//! and the decisions that the reconciliation loop takes.

pub mod text;
pub mod versioning;
pub mod crd;
pub mod properties;
pub mod error;
pub mod prometheus;
pub mod operator;
pub mod laws;
