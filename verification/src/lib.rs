//! A single-window gradient demo, split into a verified core and a thin
//! platform shell.
//!
//! The library owns the two pieces of logic worth stating precisely: the
//! window lifecycle controller (a small state machine over activation and
//! window events) and the frame renderer (a deterministic diagonal gradient
//! rasterized into a packed-ARGB pixel buffer). The platform shell performs
//! the windowing and presentation calls and feeds events and outcomes back
//! in as plain values.

pub mod lifecycle;
pub mod render;
