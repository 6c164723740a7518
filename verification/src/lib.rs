//! The verified core of a fixed-tick rendering front-end: input buffering,
//! tick pacing, presentation-surface planning and frame synchronisation.

pub mod input;
pub mod window;
pub mod swapchain;
pub mod device;
pub mod state;
pub mod vulkan;
pub mod shader;
pub mod events;
pub mod app;
