pub mod constants;
pub mod float;
pub mod game_data;
pub mod ids;
pub mod pixel_map;
pub mod player;
pub mod wire;

pub use wire::{Keyed, TryFromProto};
