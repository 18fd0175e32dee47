//! A Monte Carlo ray tracer, split into a verified core and an unverified
//! rendering front end.
//!
//! The core holds the data that the renderer reads and writes without
//! floating-point arithmetic: pixel colors, the framebuffer grid, the
//! scene's parallel shape/material storage, the integrator's bounce
//! decision, and the plain-text image serialization.

pub mod framebuf;
pub mod ppm;
pub mod rgb;
pub mod scene;

pub use framebuf::Framebuf;
pub use rgb::RGB;
pub use scene::Scene;
