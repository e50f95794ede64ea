//! A waPC engine provider backed by the Wasmtime WebAssembly runtime.
//!
//! The provider compiles a guest module, lines the module's declared
//! imports up with the host's fixed set of bridging functions, schedules
//! the bootstrap initializers, locates the guest's single entry point,
//! and lets the backing bytecode be hot-swapped without losing the host
//! binding. Those binding, bootstrap, call and swap decisions are
//! verified; the engine itself is reached through a few trusted
//! declarations.

pub mod abi;
pub mod binder;
pub mod driver;
pub mod errors;
pub mod provider;
