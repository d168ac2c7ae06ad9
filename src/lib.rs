//! Game mods in their three encodings, and what they imply for difficulty
//! calculation.
pub mod ids;
pub mod mods;
pub mod laws;

pub use ids::ModId;
pub use mods::{F32Bits, GameMod, GameMode, GameMods, ModsView, Reflection};
