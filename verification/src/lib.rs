//! Process-lifecycle supervision for a cluster policy control plane.
//!
//! The crate models the layer of the control-plane binary that starts the
//! independent network-facing services, wires a readiness signal between
//! them, runs the drain-based graceful-shutdown protocol when the process is
//! asked to stop, and classifies how the process ends: service composition,
//! readiness propagation, the drain protocol, and the error-classification
//! logic that decides whether termination is clean or fatal. Parsing of the
//! cluster network list, the one piece of startup configuration with a
//! non-trivial rule, is verified here as well.

pub mod grpc;
pub mod netlist;
pub mod readiness;
pub mod shutdown;
pub mod supervisor;
