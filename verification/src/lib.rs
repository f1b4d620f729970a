//! Parameter model, state encoding and host-facing decisions of a Csound
//! reverb audio effect.
//!
//! Parameter values are `f32` numbers held as their IEEE-754 bit patterns
//! (`u32`), which is also how they travel through atomics and the saved state.

pub mod plugin;
pub mod util;
