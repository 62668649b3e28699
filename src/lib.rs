//! Control plane of a zero-knowledge prover service: trace validation, version
//! checks, trusted-setup parameter authentication, the steps of a proving
//! request, and the error and metadata records handed to clients.
pub mod circuit;
pub mod params;
pub mod prove;
pub mod prover_error;
pub mod server;
pub mod text;
pub mod utils;
pub mod version;
pub mod zk_spec;
