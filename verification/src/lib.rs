//! A small roguelike core: a fixed-size tile map with random wall scatter,
//! field-of-view bookkeeping, distance-shaded draw commands, and two player
//! controllers (one discrete and grid-bound, one continuous).
//!
//! The modules hold the game's own logic, stated and proved here; window
//! creation, input polling and the actual drawing are left to the caller,
//! which hands plain values in and takes plain values back.

pub mod grid;
pub mod random;
pub mod shade;
pub mod state;
pub mod player;
