//! GPU compute-pipeline orchestration: negotiates a compute-capable device,
//! uploads an image into device memory, dispatches one compute kernel over it,
//! and reads the result back with a correct, tightly packed byte layout.
//!
//! The row-alignment arithmetic, the workgroup-grid computation and the
//! depadding of the readback buffer are verified; the calls into the GPU
//! library stand behind trusted wrappers.

pub mod glist;
pub mod gpu;
pub mod guard;
pub mod layout;
