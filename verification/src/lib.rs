//! Job lifecycle, sandbox launch policy and queue bookkeeping of a remote
//! code-execution service, with every rule stated as a contract.

pub mod clock;
pub mod docker;
pub mod error;
pub mod executor;
pub mod grpc;
pub mod ids;
pub mod language;
pub mod lifecycle;
pub mod models;
pub mod queue;
pub mod state;
pub mod text;
pub mod worker;
