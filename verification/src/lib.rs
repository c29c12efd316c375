//! Core of an FHE circuit compiler: a scoped graph builder that turns typed
//! operator calls into nodes and edges of a computation graph, a plaintext
//! codec mapping signed and unsigned integers to and from scheme-level
//! polynomial coefficients, and a debug-correlation store associating graph
//! nodes with deduplicated stack traces.

pub mod bfv;
pub mod circuit;
pub mod context;
pub mod encoding;
pub mod integer;
pub mod lookup;
pub mod params;
pub mod plaintext;
