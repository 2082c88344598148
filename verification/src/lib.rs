//! Culling of objects on the GPU.
//!
//! This library decides what a GPU culler does: in which order objects come,
//! what the shaders read of them, which buffers, layouts and pipelines there
//! are, and which commands run the culling and draw what is left. It hands its
//! decisions out as plain values, which a device turns into the real things.

pub mod bytes;
pub mod cull;
pub mod cull_data;
pub mod culler;
pub mod draw;
pub mod pass;
pub mod resources;
pub mod scan;
pub mod scene;
pub mod sorting;
pub mod spirv;
