//! Verified core of a small voxel renderer: the integer mesh of a voxel,
//! the frame pacing of the draw loop, the input state of the player, and the
//! integer decisions made while setting up device memory and swapchains.
pub mod buffer;
pub mod controls;
pub mod device;
pub mod frames;
pub mod mesh;
pub mod platform;
pub mod shader;
