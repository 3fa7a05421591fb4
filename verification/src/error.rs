//! The errors of the operator.
use crate::crd;
use vstd::prelude::*;

verus! {

/// What can go wrong while the operator builds configuration and pods.
#[derive(Clone, Debug, PartialEq, Eq)]
pub enum Error {
    /// The Prometheus configuration could not be written as YAML.
    PrometheusConfigCannotBeSerialized { reason: String },
    /// A text could not be read as a Prometheus configuration.
    YamlNotParsable { content: String, reason: String },
    /// A config map has no name, which is needed to query it.
    InvalidConfigMap,
    /// The reconciliation met a state that it cannot handle.
    ReconcileError(String),
    /// The config map of the given type has no name.
    MissingConfigMapNameError { cm_type: &'static str },
    /// The config map of the given type, needed by the pod, is missing.
    MissingConfigMapError { cm_type: &'static str, pod_name: String },
    /// The custom resource model refused a value.
    CrdModuleError { source: crd::Error },
}

} // verus!
