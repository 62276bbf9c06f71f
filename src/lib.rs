//! Resource-management core of a GPU driver compatibility layer: handle
//! liveness, device and context tables, and kernel-launch argument decoding.

pub mod device;
pub mod error;
pub mod function;
pub mod handle;
pub mod state;
