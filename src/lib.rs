//! Frame-lifecycle and GPU-resource bookkeeping for a small instanced renderer.
//!
//! Every decision the renderer makes (buffer growth, visibility bookkeeping,
//! device and swapchain selection, frame pacing) lives here as verified code
//! over plain values; the native graphics calls are made by the caller.
pub mod buffer;
pub mod device;
pub mod input;
pub mod instance_group;
pub mod mesh;
pub mod renderer;
pub mod swapchain;
pub mod sync_objects;
