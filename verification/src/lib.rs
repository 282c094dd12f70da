//! Viewport core of an interactive fractal viewer.
//!
//! The crate holds the state that sits between the window system and the
//! graphics device: the pointer and view transform, the tunable parameters,
//! the packed block of values that the shader reads, the fixed geometry, the
//! order of the steps that make up one frame, and the rules by which the
//! frame loop reacts to resizes and presentation failures.
//!
//! Every single-precision number is carried as its IEEE 754 bit pattern, so
//! that all of the state is made of integers. The shell around the crate
//! performs the arithmetic on those numbers and talks to the device.

pub mod scalar;
pub mod wire;
pub mod mouse;
pub mod ui;
pub mod uniform;
pub mod rounding;
pub mod event;
pub mod state;
pub mod geometry;
pub mod render;
pub mod trace;
