//! Bridge between a retained-mode render loop and an external
//! compositor-backed window.
//!
//! The render thread draws into a GPU image whose backing memory is exported
//! as a file descriptor; the UI thread imports that memory zero-copy and
//! presents it. This crate holds the verified core of that arrangement: the
//! overwrite-on-write frame slots that hand descriptors across threads, the
//! per-window bridge state with its resize and relay rules, the render-target
//! registry with collision-free handle allocation, and the exact parameters
//! of the exported image and of the dma-buf surface built from it.

pub mod config;
pub mod frame;
pub mod registry;
pub mod slot;
pub mod surface;
pub mod window;
