//! State and navigation core for an interactive terminal dashboard.
//!
//! The crate provides the pieces that decide what a dashboard shows on each
//! redraw: a cyclic tab selector, a cyclic list selector, a pseudo-random
//! signal generator, and the controller that dispatches input events to
//! exactly one of them. Terminal setup, widget drawing and event production
//! are collaborators outside this crate.

pub mod controller;
pub mod list;
pub mod signal;
pub mod tabs;
