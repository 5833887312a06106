//! Core of a real-time voxel renderer: a mesher that turns a 3-D boolean
//! occupancy grid into a culled quad mesh, and the pure decision logic of the
//! GPU frame loop (device selection, swapchain configuration, per-frame
//! command planning). The windowing shell and the GPU submission calls live
//! outside this library; everything here is verified.

pub mod config;
pub mod device;
pub mod frame;
pub mod pipeline;
pub mod objects;
pub mod swapchain;
pub mod voxel;
