//! A minimal on-screen image viewer surface.
//!
//! The crate opens a window through a display backend, binds a raw pixel
//! buffer to it, lets the caller mutate that buffer in parallel, and
//! translates the backend's low-level event records into a small semantic
//! event vocabulary. The translator, the pixel-buffer mutation contract and
//! the resource lifecycle are verified; the native windowing connection is a
//! collaborator behind the [`viewer::DisplayBackend`] trait.

pub mod event;
pub mod pixels;
pub mod viewer;
