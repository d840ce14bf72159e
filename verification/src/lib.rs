//! Biomes of the Anvil world-save format: the integer code of each biome, and
//! the climate that goes with it.

pub mod climate_table;
pub mod laws;
pub mod registry;

pub use climate_table::{climate, climate_of, Climate};
pub use registry::{decode, decoded, encode, is_known_code, Biome, UnknownBiomeCode};
