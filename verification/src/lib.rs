//! Mesh data and import options for bringing Source engine assets into Blender.
//!
//! `loops` holds the generic flattening of per-polygon data into the flat
//! per-loop buffers that Blender meshes are built from, `brush` the brush
//! geometry handed to Blender, and `importer` the option parsing and the
//! lifecycle of an import session.
pub mod loops;
pub mod brush;
pub mod importer;
pub mod text;
