//! The decision layer of a bridge between a host application and a native
//! wallet-subscription engine.
//!
//! The host drives the engine through boundary calls. Every call returns a
//! status code at once; work that takes longer is scheduled on an executor and
//! its outcome is posted later to a completion port, a numeric address that the
//! host resolves in its own registry. Native objects are exposed to the host as
//! opaque handles: addresses of values that the native side owns until the host
//! asks for their destruction.
//!
//! This crate holds the part of that bridge that decides: which status a call
//! returns, whether background work starts, what is written to an output slot
//! and which message is posted to which port. The code that owns the executor,
//! the connection and the raw memory performs what these functions return.

pub mod status;

pub mod contract;
pub mod endpoint;
pub mod key;
mod text;
pub mod handle;
pub mod port;
pub mod bridge;
