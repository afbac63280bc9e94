//! A safety-oriented wrapper core for a machine-learning runtime's
//! instance/device/session/call/buffer-view lifecycle.
//!
//! The library provides the resource-ownership and error-propagation layer
//! that a runtime binding needs: owning handle types with single-owner
//! discipline, builder-based configuration, typed error conversion from
//! status codes, and the sequencing rules of the call lifecycle
//! (inputs are pushed before an invocation, outputs are popped after it,
//! in FIFO order).
//!
//! The execution engine behind the handles is a small in-crate reference
//! runtime: compiled modules are read from a compact container format that
//! lists the entry points of a module, and an invocation hands its input
//! buffer views through to its output queue in order.  What a compiled
//! function computes numerically is outside the scope of this layer; the
//! lifecycle, validation and ordering rules are what the contracts here
//! pin down.

pub mod allocator;
pub mod bytespan;
pub mod call;
pub mod err;
pub mod hal_buffer;
pub mod hal_device;
pub mod instance;
pub mod session;
pub mod status;
pub mod text;
