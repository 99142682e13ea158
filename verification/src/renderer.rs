//! The renderer: what to create, record, submit and destroy, and when.
pub mod vertex;
pub mod vulkan;
