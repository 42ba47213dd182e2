//! Host-side engine for a GPU-driven cellular-automaton simulation.
//!
//! The transition rule itself runs inside an opaque, externally supplied GPU
//! program; this crate owns everything around it: the double-buffered pair of
//! render targets, the per-frame step protocol (bind, compute, present, swap),
//! the initial seeding of the state texture, and the reset protocol that
//! replaces a live simulation with a freshly built one.
//!
//! GPU objects are referred to by plain integer handles; the unverified host
//! shell owns the real objects and performs the commands that the engine
//! decides on.

pub mod controller;
pub mod engine;
pub mod errors;
pub mod grid;
pub mod patterns;
pub mod seed;
pub mod shader;
pub mod target;
