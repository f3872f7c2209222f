//! A just-in-time kernel dispatch core for a tensor compute backend.
//!
//! The crate covers the path from a logical tensor operation to a scheduled
//! kernel invocation: element-type descriptors parameterize an immutable
//! source template, a geometry calculator turns an element count into a
//! dispatch grid that covers every element, and a static kernel wrapper
//! binds source, numeric settings and grid under a stable identity. A
//! compute client allocates output buffers, executes kernels and keeps an
//! autotune cache of benchmarked variants keyed by shape-derived identities;
//! a runtime composes the client with a compiler, a server, a channel and a
//! device, alongside a full-precision sibling sharing everything but the
//! compiler. Element-wise type casts are built on these primitives,
//! including the canonicalizing cast out of boolean word tensors.

pub mod element;
pub mod template;
pub mod workgroup;
pub mod kernel;
pub mod autotune;
pub mod compute;
pub mod tensor;
pub mod runtime;
pub mod cast;
