//! The control core of a vector-graphics viewer: the camera model, the rules
//! that turn input events into state changes, the guard on delayed message
//! expiry, and the per-frame sequence that a host drives against a renderer.
//!
//! The core holds no device, window or scene. Each step takes plain values
//! from the host and answers with the new state and a plan of what the host
//! has to carry out. Numbers that only the host computes with, such as the
//! entries of a transform, never enter the core: it decides which change is
//! due, and the host works it out.

pub mod camera;
pub mod color;
pub mod demo;
pub mod dispatch;
pub mod effect;
pub mod finish;
pub mod frame;
pub mod geometry;
pub mod message;
pub mod options;
pub mod pipeline;
pub mod ui;
pub mod window;
