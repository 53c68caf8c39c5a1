//! A turn-based combat resolution engine for a tabletop wargame.
//!
//! Two opposing units close the distance, shoot, charge and fight in melee
//! until one side is eliminated. Every phase is driven by six-sided die
//! rolls drawn from an injectable, deterministic dice source, so a whole
//! battle is a pure function of the unit profiles and the dice stream.

pub mod combat;
pub mod custodes;
pub mod dice;
pub mod laws;
pub mod tyranids;
