//! A stereo dual-target render lifecycle core.
//!
//! The crate stands up two off-screen render surfaces — one per stereo
//! eye — binds each to its physical display output and eye channel, and
//! brackets each frame's GPU command submission with begin/end calls.
//! The GPU command pipeline is a process-wide singleton resource; its
//! state is carried by an explicit [`gpu::Gpu`] value, so the
//! init/teardown pairing, the surface resource counts, and the frame
//! protocol are all part of the verified state rather than hidden
//! globals.

pub mod format;
pub mod gpu;
pub mod renderer;
