//! Planning and validation for a GPU image-undistortion dispatch layer.
//!
//! The crate decides which compute device to use, when the compute context has
//! to be rebuilt, how the kernel source is composed, which device buffers and
//! images a compute unit needs, and which device commands make up one frame.
//! It never talks to a device itself: callers enumerate devices, create the
//! objects the plans ask for and carry out the commands.

pub mod buffers;
pub mod context;
pub mod devices;
pub mod dispatch;
pub mod error;
pub mod kernel;
pub mod text;
pub mod unit;
