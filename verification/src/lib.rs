//! The core of a small Vulkan renderer and the voxel world it draws.
//!
//! Nothing in this crate touches the GPU. The renderer is written as a
//! planner: it is told what the device reported, decides what has to be
//! created, recorded, submitted or destroyed, and hands those decisions
//! back as plain values for the caller to carry out.
pub mod game;
pub mod renderer;
