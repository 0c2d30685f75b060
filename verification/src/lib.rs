//! A verified model of a small real-time particle renderer.
//!
//! The library holds the logic of the renderer: shader and program
//! bookkeeping, uniform tables, deterministic particle seeding, the
//! per-frame compute-then-draw protocol, and the release of GPU
//! resources.  Everything the graphics driver or the windowing system
//! must do is described as plain data (commands out, events in), so an
//! unverified shell can perform it while the decisions stay verified.

pub mod commands;
pub mod driver;
pub mod particle;
pub mod program;
pub mod renderstate;
pub mod rng;
pub mod shader;
pub mod text;
pub mod uniform;
