//! Presentation and frame-pacing rules of a Vulkan rendering engine, stated
//! over plain values and verified.

pub mod attachments;
pub mod buffer;
pub mod controller;
pub mod descriptors;
pub mod device;
pub mod extensions;
pub mod extras;
pub mod model;
pub mod pacing;
pub mod renderer;
pub mod surface;
pub mod swap_chain;
pub mod systems;
pub mod version;
pub mod vulkan;
pub mod window;
