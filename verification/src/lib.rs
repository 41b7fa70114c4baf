//! A backend-agnostic resource identity and lifetime core for a WebGPU-style
//! GPU abstraction layer.
//!
//! The crate names every GPU-side object — buffers, textures, pipelines,
//! bind groups, command buffers — with a typed, generation-counted
//! identifier and proves that an identifier resolves exactly until its
//! resource is destroyed, and never again. Around that core it verifies:
//!
//! - the identity registry ([`registry`]) that issues and retires
//!   identifiers;
//! - the completion bridge ([`future`]) that carries asynchronous backend
//!   results to cooperative futures, with single completion, exactly-once
//!   wakes and cancel-on-drop;
//! - typed buffer ranges ([`buffer`]) whose bounds are checked where the
//!   range is combined, never at use;
//! - the command encoder's recording state machine ([`encoder`]) and the
//!   passes recorded within it ([`pass`]);
//! - the per-process hub ([`context`]) that owns the per-device error sinks
//!   and the model of backend state, and the execution of submitted command
//!   buffers against it ([`submit`]);
//! - the flat, backend-facing forms of binding and pipeline descriptors
//!   ([`binding`], [`pipeline`], [`resources`]).

pub mod binding;
pub mod buffer;
pub mod context;
pub mod device;
pub mod encoder;
pub mod error;
pub mod future;
pub mod id;
pub mod pass;
pub mod pipeline;
pub mod registry;
pub mod resources;
pub mod sink;
pub mod submit;
pub mod texture;
