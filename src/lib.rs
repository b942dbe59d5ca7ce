//! A minimal OCI container runtime core: the container lifecycle state
//! machine, the OCI process specification model, the start-gate retry
//! protocol and the layout of the on-disk metadata store.

pub mod container;
pub mod error;
pub mod exec;
pub mod metadata;
pub mod specs;
pub mod start_gate;
pub mod status;
pub mod subcommand;
