//! A host for WebAssembly guests: loads a module, links the host functions
//! under `env`, runs `start`, and threads a shared state through each
//! invocation. Guests exchange buffers with the host only through ranges of
//! their own linear memory that they name on each call.

pub mod memory;
pub mod host;
pub mod lifecycle;
pub mod laws;
pub mod guest;
