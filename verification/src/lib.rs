//! Boot-to-loop runtime core of a bare-metal display token: the bouncing
//! body's physics, the diagnostic scratch words, and the boot and render
//! sequence as a state machine that a thin hardware shell drives.

pub mod geometry;
pub mod label;
pub mod motion;
pub mod bounce;
pub mod motion_laws;
pub mod scratch;
pub mod runtime;
pub mod runtime_laws;
