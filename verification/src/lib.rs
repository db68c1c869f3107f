//! A verified model of a pre-OS boot shim: the orchestration sequence that
//! connects drivers, manages an optional display-power capability, broadcasts
//! boot milestones, and locates and launches a second-stage loader image.
//!
//! The firmware itself (handles, protocols, events, the image loader) is an
//! external collaborator: every firmware call is represented as an [`Action`]
//! that a thin driver performs, handing the outcome back as an [`Event`].
//! The decision logic — which call to make next, which failures are fatal and
//! which are merely logged, how the device path of the loader image is built —
//! lives here and is verified.

pub mod device_path;
pub mod display;
pub mod flow;
pub mod laws;
pub mod types;
