//! Runtime core of a top-down action game: the registry of live entities,
//! the hand-off of freshly built entities into it, and the resolution of
//! contacts into removals. The simulation and the scene are driven by the
//! caller; this crate decides, the caller carries out.

pub mod game;
