//! Frame synchronization and swapchain lifecycle core for a Vulkan-style
//! renderer.
//!
//! The library owns the decisions of the steady-state frame loop: which
//! in-flight slot a frame uses, when a completion guard may be reset, how a
//! surface-staleness report or a requested format change turns into a
//! swapchain recreation, and when GPU timing data is meaningful. The calls
//! into the graphics driver themselves are made by an unverified shell, which
//! feeds their outcomes back into this state machine as plain values.

pub mod config;
pub mod cycle;
pub mod device;
pub mod errors;
pub mod features;
pub mod pipeline;
pub mod ray_tracing;
pub mod ring;
pub mod shader;
pub mod stats;
pub mod swapchain;
pub mod utils;
pub mod version;
