//! Ownership, zero-copy mapping and tensor-cache discipline for handles into a
//! native inference engine.
//!
//! Native resources are named here by their address (a `usize`, `0` standing
//! for a null result).  The types of this crate decide who releases what, when
//! a buffer may be mapped, and which cached handle a lookup yields; the native
//! calls themselves are made by the caller, who hands their results in.
pub mod error;
pub mod tensor;
pub mod context;
pub mod engine;
