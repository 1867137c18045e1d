//! Dispatch and orchestration of sector sealing.
//!
//! A proof type names a protocol version and a sector size. The sealing
//! backend is specialised per sector shape, works on the files of a sector
//! and takes minutes to hours per call. This library decides and the caller
//! acts: every operation is split into a function that judges the inputs and
//! describes the backend call to make, and a function that takes what the
//! backend reported and yields the output record of the operation or a typed
//! error. The library reads and writes no file. The one backend call that it
//! makes itself computes a data commitment from piece commitments.
//!
//! - `registry`: proof types, sector shapes and the lookup between them.
//! - `labels`, `vanilla`: the shape-tagged envelopes that carry backend
//!   state from one phase to the next.
//! - `request`: what is handed to the backend and what it hands back.
//! - `seal`: the operations.
//! - `backend`: the backend call that the library makes.
//! - `error`, `types`: errors and plain values.

pub mod backend;
pub mod error;
pub mod labels;
pub mod registry;
pub mod request;
pub mod seal;
pub mod types;
pub mod vanilla;
