//! Asset loading and window event handling for the Vent engine.
//!
//! Scene documents become flat lists of GPU-ready mesh descriptions, and the
//! windowing backend is a state machine from protocol events to requests and
//! normalized window events.

pub mod image_codec;
pub mod error;
pub mod sampler;
pub mod material;
pub mod mesh;
pub mod model;
pub mod window;
pub mod light;
pub mod application;
