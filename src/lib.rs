//! Swapchain lifecycle and frame-presentation decisions for a Vulkan-style
//! presentation surface.
//!
//! The library decides; the caller performs the GPU and window work that each
//! decision asks for and reports the outcome back.
pub mod framebuffer;
pub mod presentation;
pub mod surface;
pub mod swapchain;
pub mod sync;
