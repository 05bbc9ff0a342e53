//! Editing model for ASAP2 calibration descriptions: a projection of a
//! loaded document into a navigable tree, a directory of the promoted
//! entities, typed access to measurements, characteristics and axis points,
//! and the import of binary symbols as new measurements.

pub mod access;
pub mod details;
pub mod directory;
pub mod error;
pub mod hex;
pub mod import;
pub mod kinds;
pub mod laws;
pub mod model;
pub mod render;
pub mod source;
pub mod store;
pub mod text;
pub mod tree;
