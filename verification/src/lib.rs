//! A core for a loosely trusted peer network in which peers submit compiled
//! bytecode modules for remote execution and receive signed results back:
//! a signed message protocol binds every request and result to a
//! cryptographic identity, and a sandboxed, instruction-metered engine runs
//! untrusted modules under a strict budget.
pub mod codec;
pub mod config;
pub mod exec;
pub mod message;
pub mod policy;
pub mod sig;
