//! Orchestration logic for ephemeral Waku node containers used in
//! integration testing: node configuration, command-line and port layout,
//! the bounded info-resolution retry machine, peer-convergence polling,
//! control-plane response policy, network provisioning and cleanup.
pub mod model;
pub mod text;
pub mod launch;
pub mod resolve;
pub mod convergence;
pub mod gateway;
pub mod codec;
pub mod provision;
