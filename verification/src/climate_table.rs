//! The climate table: temperature and rainfall of every biome.
//!
//! The values are those that Mineways uses to colour grass and foliage. They
//! are data, not the result of a computation: the table is right when it
//! agrees with the published one, entry by entry.
//!
//! The table has an entry for every [`Biome`], so the lookup is total and
//! nothing is ever defaulted. A biome that is added to the registry has to
//! be given a climate here before the crate compiles again.

use crate::registry::Biome;
use vstd::prelude::*;

verus! {

/// Temperature and rainfall of a biome, both in hundredths: a temperature of
/// `95` stands for 0.95, and one of `-50` for -0.5.
///
/// The published values have at most two decimal places, so hundredths hold
/// them exactly. Neither field is confined to a range: the table has
/// temperatures below zero and above one.
#[derive(Clone, Copy, Debug, PartialEq, Eq, Hash, Structural)]
pub struct Climate {
    pub temperature: i32,
    pub rainfall: i32,
}

/// The published climate of each biome, listed by ascending code.
pub open spec fn climate_of(id: Biome) -> Climate {
    match id {
        Biome::Ocean => Climate { temperature: 50, rainfall: 50 },
        Biome::Plains => Climate { temperature: 80, rainfall: 40 },
        Biome::Desert => Climate { temperature: 200, rainfall: 0 },
        Biome::Mountains => Climate { temperature: 20, rainfall: 30 },
        Biome::Forest => Climate { temperature: 70, rainfall: 80 },
        Biome::Taiga => Climate { temperature: 25, rainfall: 80 },
        Biome::Swamp => Climate { temperature: 80, rainfall: 90 },
        Biome::River => Climate { temperature: 50, rainfall: 50 },
        Biome::Nether => Climate { temperature: 200, rainfall: 0 },
        Biome::TheEnd => Climate { temperature: 50, rainfall: 50 },
        Biome::FrozenOcean => Climate { temperature: 0, rainfall: 50 },
        Biome::FrozenRiver => Climate { temperature: 0, rainfall: 50 },
        Biome::SnowyTundra => Climate { temperature: 0, rainfall: 50 },
        Biome::SnowyMountains => Climate { temperature: 0, rainfall: 50 },
        Biome::MushroomFields => Climate { temperature: 90, rainfall: 100 },
        Biome::MushroomFieldShore => Climate { temperature: 90, rainfall: 100 },
        Biome::Beach => Climate { temperature: 80, rainfall: 40 },
        Biome::DesertHills => Climate { temperature: 200, rainfall: 0 },
        Biome::WoodedHills => Climate { temperature: 70, rainfall: 80 },
        Biome::TaigaHills => Climate { temperature: 25, rainfall: 80 },
        Biome::MountainEdge => Climate { temperature: 20, rainfall: 30 },
        Biome::Jungle => Climate { temperature: 95, rainfall: 90 },
        Biome::JungleHills => Climate { temperature: 95, rainfall: 90 },
        Biome::JungleEdge => Climate { temperature: 95, rainfall: 80 },
        Biome::DeepOcean => Climate { temperature: 50, rainfall: 50 },
        Biome::StoneShore => Climate { temperature: 20, rainfall: 30 },
        Biome::SnowyBeach => Climate { temperature: 5, rainfall: 30 },
        Biome::BirchForest => Climate { temperature: 60, rainfall: 60 },
        Biome::BirchForestHills => Climate { temperature: 60, rainfall: 60 },
        Biome::DarkForest => Climate { temperature: 70, rainfall: 80 },
        Biome::SnowyTaiga => Climate { temperature: -50i32, rainfall: 40 },
        Biome::SnowyTaigaHills => Climate { temperature: -50i32, rainfall: 40 },
        Biome::GiantTreeTaiga => Climate { temperature: 30, rainfall: 80 },
        Biome::GiantTreeTaigaHills => Climate { temperature: 30, rainfall: 80 },
        Biome::WoodedMountains => Climate { temperature: 20, rainfall: 30 },
        Biome::Savanna => Climate { temperature: 120, rainfall: 0 },
        Biome::SavannaPlateau => Climate { temperature: 100, rainfall: 0 },
        Biome::Badlands => Climate { temperature: 200, rainfall: 0 },
        Biome::WoodedBadlandsPlateau => Climate { temperature: 200, rainfall: 0 },
        Biome::BadlandsPlateau => Climate { temperature: 200, rainfall: 0 },
        Biome::SmallEndIslands => Climate { temperature: 50, rainfall: 50 },
        Biome::EndMidlands => Climate { temperature: 50, rainfall: 50 },
        Biome::EndHighlands => Climate { temperature: 50, rainfall: 50 },
        Biome::EndBarrens => Climate { temperature: 50, rainfall: 50 },
        Biome::WarmOcean => Climate { temperature: 80, rainfall: 50 },
        Biome::LukewarmOcean => Climate { temperature: 80, rainfall: 50 },
        Biome::ColdOcean => Climate { temperature: 80, rainfall: 50 },
        Biome::DeepWarmOcean => Climate { temperature: 80, rainfall: 50 },
        Biome::DeepLukewarmOcean => Climate { temperature: 80, rainfall: 50 },
        Biome::DeepColdOcean => Climate { temperature: 80, rainfall: 50 },
        Biome::DeepFrozenOcean => Climate { temperature: 80, rainfall: 50 },
        Biome::TheVoid => Climate { temperature: 50, rainfall: 50 },
        Biome::SunflowerPlains => Climate { temperature: 80, rainfall: 40 },
        Biome::DesertLakes => Climate { temperature: 200, rainfall: 0 },
        Biome::GravellyMountains => Climate { temperature: 20, rainfall: 30 },
        Biome::FlowerForest => Climate { temperature: 70, rainfall: 80 },
        Biome::TaigaMountains => Climate { temperature: 25, rainfall: 80 },
        Biome::SwampHills => Climate { temperature: 80, rainfall: 90 },
        Biome::IceSpikes => Climate { temperature: 0, rainfall: 50 },
        Biome::ModifiedJungle => Climate { temperature: 95, rainfall: 90 },
        Biome::ModifiedJungleEdge => Climate { temperature: 95, rainfall: 80 },
        Biome::TallBirchForest => Climate { temperature: 60, rainfall: 60 },
        Biome::TallBirchHills => Climate { temperature: 60, rainfall: 60 },
        Biome::DarkForestHills => Climate { temperature: 70, rainfall: 80 },
        Biome::SnowyTaigaMountains => Climate { temperature: -50i32, rainfall: 40 },
        Biome::GiantSpruceTaiga => Climate { temperature: 25, rainfall: 80 },
        Biome::GiantSpruceTaigaHills => Climate { temperature: 25, rainfall: 80 },
        Biome::ModifiedGravellyMountains => Climate { temperature: 20, rainfall: 30 },
        Biome::ShatteredSavanna => Climate { temperature: 110, rainfall: 0 },
        Biome::ShatteredSavannaPlateau => Climate { temperature: 100, rainfall: 0 },
        Biome::ErodedBadlands => Climate { temperature: 200, rainfall: 0 },
        Biome::ModifiedWoodedBadlandsPlateau => Climate { temperature: 200, rainfall: 0 },
        Biome::ModifiedBadlandsPlateau => Climate { temperature: 200, rainfall: 0 },
        Biome::BambooJungle => Climate { temperature: 95, rainfall: 90 },
        Biome::BambooJungleHills => Climate { temperature: 95, rainfall: 90 },
    }
}

/// The climate of a biome.
///
/// Biomes that share a climate share an arm, so the table reads by climate
/// here and by biome in [`climate_of`].
pub fn climate(b: Biome) -> (c: Climate)
    ensures
        c == climate_of(b),
{
    match b {
        Biome::SnowyTaiga | Biome::SnowyTaigaHills | Biome::SnowyTaigaMountains => {
            Climate { temperature: -50, rainfall: 40 }
        },
        Biome::FrozenOcean | Biome::FrozenRiver | Biome::SnowyTundra | Biome::SnowyMountains
        | Biome::IceSpikes => Climate { temperature: 0, rainfall: 50 },
        Biome::SnowyBeach => Climate { temperature: 5, rainfall: 30 },
        Biome::Mountains | Biome::MountainEdge | Biome::StoneShore | Biome::WoodedMountains
        | Biome::GravellyMountains | Biome::ModifiedGravellyMountains => {
            Climate { temperature: 20, rainfall: 30 }
        },
        Biome::Taiga | Biome::TaigaHills | Biome::TaigaMountains | Biome::GiantSpruceTaiga
        | Biome::GiantSpruceTaigaHills => Climate { temperature: 25, rainfall: 80 },
        Biome::GiantTreeTaiga | Biome::GiantTreeTaigaHills => {
            Climate { temperature: 30, rainfall: 80 }
        },
        Biome::Ocean | Biome::River | Biome::TheEnd | Biome::DeepOcean | Biome::SmallEndIslands
        | Biome::EndMidlands | Biome::EndHighlands | Biome::EndBarrens | Biome::TheVoid => {
            Climate { temperature: 50, rainfall: 50 }
        },
        Biome::BirchForest | Biome::BirchForestHills | Biome::TallBirchForest
        | Biome::TallBirchHills => Climate { temperature: 60, rainfall: 60 },
        Biome::Forest | Biome::WoodedHills | Biome::DarkForest | Biome::FlowerForest
        | Biome::DarkForestHills => Climate { temperature: 70, rainfall: 80 },
        Biome::Plains | Biome::Beach | Biome::SunflowerPlains => {
            Climate { temperature: 80, rainfall: 40 }
        },
        Biome::WarmOcean | Biome::LukewarmOcean | Biome::ColdOcean | Biome::DeepWarmOcean
        | Biome::DeepLukewarmOcean | Biome::DeepColdOcean | Biome::DeepFrozenOcean => {
            Climate { temperature: 80, rainfall: 50 }
        },
        Biome::Swamp | Biome::SwampHills => Climate { temperature: 80, rainfall: 90 },
        Biome::MushroomFields | Biome::MushroomFieldShore => {
            Climate { temperature: 90, rainfall: 100 }
        },
        Biome::JungleEdge | Biome::ModifiedJungleEdge => Climate { temperature: 95, rainfall: 80 },
        Biome::Jungle | Biome::JungleHills | Biome::ModifiedJungle | Biome::BambooJungle
        | Biome::BambooJungleHills => Climate { temperature: 95, rainfall: 90 },
        Biome::SavannaPlateau | Biome::ShatteredSavannaPlateau => {
            Climate { temperature: 100, rainfall: 0 }
        },
        Biome::ShatteredSavanna => Climate { temperature: 110, rainfall: 0 },
        Biome::Savanna => Climate { temperature: 120, rainfall: 0 },
        Biome::Desert | Biome::Nether | Biome::DesertHills | Biome::Badlands
        | Biome::WoodedBadlandsPlateau | Biome::BadlandsPlateau | Biome::DesertLakes
        | Biome::ErodedBadlands | Biome::ModifiedWoodedBadlandsPlateau
        | Biome::ModifiedBadlandsPlateau => Climate { temperature: 200, rainfall: 0 },
    }
}

} // verus!
