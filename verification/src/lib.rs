//! Typed compute-graph schema: the definition of a directed pipeline of named
//! processing steps, its polymorphic node representation, and the lossless
//! mapping between the wire-transmissible form and the internal
//! execution-ready model.
//!
//! The crate is split along the two representations:
//! - [`wire`] holds the shapes that clients submit and read back;
//! - [`model`] holds the internal, execution-ready shapes and the conversion
//!   layer between the two;
//! - [`registry`] models version assignment at the storage boundary;
//! - [`artifact`], [`version`] and [`errors`] hold the supporting types.

pub mod artifact;
pub mod convert;
pub mod errors;
pub mod model;
pub mod registry;
pub mod tasks;
mod text;
pub mod version;
pub mod wire;
