//! The decision logic of a small Vulkan scene viewer: keyboard state,
//! the per-frame movement commands drawn from it, the event and frame
//! lifecycle of the render loop, the choice of a physical device and
//! queue family, the plan of mesh draw calls and the texture data handed
//! to the GPU.
//!
//! Everything here is plain data; the window, the GPU and the floating
//! point camera and light math live in the application around it.

pub mod input;
pub mod commands;
pub mod render_loop;
pub mod device;
pub mod mesh_plan;
pub mod texture;
