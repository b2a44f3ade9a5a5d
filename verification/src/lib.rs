//! Decisions behind a full-screen Worley-noise renderer.
//!
//! The renderer itself talks to the graphics driver and the window system.
//! What it decides in between lives here, on plain values: how a shader or
//! program build ends, when the window closes, which seed a run gets and
//! which quad is drawn.

pub mod input;
pub mod quad;
pub mod seed;
pub mod shader;
