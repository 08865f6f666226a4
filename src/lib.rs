//! GPU resource and frame-synchronization engine.
//!
//! The library holds the decisions of a small Vulkan renderer as plain values:
//! which memory type backs an allocation, which barrier a layout transition
//! needs, what a staged upload records, and how frame slots and swapchain
//! images are paired while several frames are in flight. The program around
//! it performs the device calls that these decisions describe.
pub mod device;
pub mod error;
pub mod frame;
pub mod image;
pub mod layout;
pub mod queue;
pub mod shader;
pub mod swapchain;
pub mod transfer;
pub mod uniform;
