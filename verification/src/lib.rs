//! Core logic of a terminal dashboard for a container runtime.
//!
//! The library holds the event-driven orchestration layer: key routing,
//! tab switching, per-view selection and refresh bookkeeping, the image
//! inspection modal, the background worker protocol, and the pure text
//! formatting used by the views. Terminal I/O, rendering and the calls
//! into the container engine live outside, in the surrounding binary.

pub mod app;
pub mod docker;
pub mod format;
pub mod input;
pub mod selection;
pub mod text;
pub mod theme;
pub mod ui_containers;
pub mod ui_images;
pub mod ui_networks;
pub mod ui_volumes;
pub mod worker;
