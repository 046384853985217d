//! The logic of a small real-time scene renderer: the scene graph and its
//! traversal into draw commands, the order in which model transforms are
//! composed, mesh and vertex array bookkeeping, and the input state that
//! steers the camera.
//!
//! The library never computes with a coordinate or a matrix entry. Vectors,
//! matrices and coordinates are type parameters; the numeric operations on
//! them are handed in as functions, and the contracts say which operations
//! are applied to what, and in which order.
pub mod debug;
pub mod input;
pub mod mesh;
pub mod render;
pub mod scene_graph;
pub mod shader;
pub mod transform;
pub mod util;
pub mod vao;
