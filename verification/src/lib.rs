//! Procedural generation of tree-like and fractal structures.
//!
//! An L-system rewriting engine produces symbolic words; a turtle-graphics
//! interpreter walks those words on a transform stack and emits line
//! skeletons and triangulated solid meshes. All geometry is carried in
//! fixed-point coordinates so that every step of the pipeline is verified.

pub mod actions;
pub mod draw_helpers;
pub mod fixed;
pub mod linemesh;
pub mod lsystem;
pub mod math;
pub mod matrixstack;
pub mod rand_util;
pub mod trees;
pub mod vecmat;
pub mod vertex;
pub mod vertex_index_mesh;

pub use fixed::Fx;
