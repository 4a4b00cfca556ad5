//! Desktop capture for a game engine: the rules by which frames are paced,
//! captured, converted to RGBA8 and handed over to the engine's main thread.
//!
//! The library holds the decisions, and the computations on frames and their
//! sizes. Talking to the operating system, to the engine and to the clock is
//! left to the program around it, which reports back what happened as plain
//! values.

pub mod backends;
pub mod capture_thread;
pub mod desktop_caster;
pub mod frame;
pub mod pipeline;
pub mod text;
