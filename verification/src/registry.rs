//! The biome registry: the closed set of biomes and the integer code under
//! which the world-save format stores each of them.
//!
//! The codes are those published for the Java Edition data values. They are
//! neither contiguous nor in any order, and they are read straight off disk,
//! so the table below has to match them exactly.

use crate::laws::lemma_encode_decode;
use vstd::prelude::*;

verus! {

/// A biome known to this version of the registry.
#[derive(Clone, Copy, Debug, PartialEq, Eq, Hash, Structural)]
pub enum Biome {
    Ocean,
    DeepOcean,
    FrozenOcean,
    DeepFrozenOcean,
    ColdOcean,
    DeepColdOcean,
    LukewarmOcean,
    DeepLukewarmOcean,
    WarmOcean,
    DeepWarmOcean,
    River,
    FrozenRiver,
    Beach,
    StoneShore,
    SnowyBeach,
    Forest,
    WoodedHills,
    FlowerForest,
    BirchForest,
    BirchForestHills,
    TallBirchForest,
    TallBirchHills,
    DarkForest,
    DarkForestHills,
    Jungle,
    JungleHills,
    ModifiedJungle,
    JungleEdge,
    ModifiedJungleEdge,
    BambooJungle,
    BambooJungleHills,
    Taiga,
    TaigaHills,
    TaigaMountains,
    SnowyTaiga,
    SnowyTaigaHills,
    SnowyTaigaMountains,
    GiantTreeTaiga,
    GiantTreeTaigaHills,
    GiantSpruceTaiga,
    GiantSpruceTaigaHills,
    MushroomFields,
    MushroomFieldShore,
    Swamp,
    SwampHills,
    Savanna,
    SavannaPlateau,
    ShatteredSavanna,
    ShatteredSavannaPlateau,
    Plains,
    SunflowerPlains,
    Desert,
    DesertHills,
    DesertLakes,
    SnowyTundra,
    SnowyMountains,
    IceSpikes,
    Mountains,
    WoodedMountains,
    GravellyMountains,
    ModifiedGravellyMountains,
    MountainEdge,
    Badlands,
    BadlandsPlateau,
    ModifiedBadlandsPlateau,
    WoodedBadlandsPlateau,
    ModifiedWoodedBadlandsPlateau,
    ErodedBadlands,
    Nether,
    TheEnd,
    SmallEndIslands,
    EndMidlands,
    EndHighlands,
    EndBarrens,
    TheVoid,
}

/// The error of [`decode`]: no biome of the registry is stored under the
/// code that it carries.
#[derive(Clone, Copy, Debug, PartialEq, Eq, Hash, Structural)]
pub struct UnknownBiomeCode(pub i32);

impl Biome {
    /// The code under which the save format stores this biome.
    pub open spec fn code(self) -> i32 {
        match self {
            Biome::Ocean => 0,
            Biome::DeepOcean => 24,
            Biome::FrozenOcean => 10,
            Biome::DeepFrozenOcean => 50,
            Biome::ColdOcean => 46,
            Biome::DeepColdOcean => 49,
            Biome::LukewarmOcean => 45,
            Biome::DeepLukewarmOcean => 48,
            Biome::WarmOcean => 44,
            Biome::DeepWarmOcean => 47,
            Biome::River => 7,
            Biome::FrozenRiver => 11,
            Biome::Beach => 16,
            Biome::StoneShore => 25,
            Biome::SnowyBeach => 26,
            Biome::Forest => 4,
            Biome::WoodedHills => 18,
            Biome::FlowerForest => 132,
            Biome::BirchForest => 27,
            Biome::BirchForestHills => 28,
            Biome::TallBirchForest => 155,
            Biome::TallBirchHills => 156,
            Biome::DarkForest => 29,
            Biome::DarkForestHills => 157,
            Biome::Jungle => 21,
            Biome::JungleHills => 22,
            Biome::ModifiedJungle => 149,
            Biome::JungleEdge => 23,
            Biome::ModifiedJungleEdge => 151,
            Biome::BambooJungle => 168,
            Biome::BambooJungleHills => 169,
            Biome::Taiga => 5,
            Biome::TaigaHills => 19,
            Biome::TaigaMountains => 133,
            Biome::SnowyTaiga => 30,
            Biome::SnowyTaigaHills => 31,
            Biome::SnowyTaigaMountains => 158,
            Biome::GiantTreeTaiga => 32,
            Biome::GiantTreeTaigaHills => 33,
            Biome::GiantSpruceTaiga => 160,
            Biome::GiantSpruceTaigaHills => 161,
            Biome::MushroomFields => 14,
            Biome::MushroomFieldShore => 15,
            Biome::Swamp => 6,
            Biome::SwampHills => 134,
            Biome::Savanna => 35,
            Biome::SavannaPlateau => 36,
            Biome::ShatteredSavanna => 163,
            Biome::ShatteredSavannaPlateau => 164,
            Biome::Plains => 1,
            Biome::SunflowerPlains => 129,
            Biome::Desert => 2,
            Biome::DesertHills => 17,
            Biome::DesertLakes => 130,
            Biome::SnowyTundra => 12,
            Biome::SnowyMountains => 13,
            Biome::IceSpikes => 140,
            Biome::Mountains => 3,
            Biome::WoodedMountains => 34,
            Biome::GravellyMountains => 131,
            Biome::ModifiedGravellyMountains => 162,
            Biome::MountainEdge => 20,
            Biome::Badlands => 37,
            Biome::BadlandsPlateau => 39,
            Biome::ModifiedBadlandsPlateau => 167,
            Biome::WoodedBadlandsPlateau => 38,
            Biome::ModifiedWoodedBadlandsPlateau => 166,
            Biome::ErodedBadlands => 165,
            Biome::Nether => 8,
            Biome::TheEnd => 9,
            Biome::SmallEndIslands => 40,
            Biome::EndMidlands => 41,
            Biome::EndHighlands => 42,
            Biome::EndBarrens => 43,
            Biome::TheVoid => 127,
        }
    }
}

/// Whether some biome of the registry is stored under `code`.
pub open spec fn is_known_code(code: i32) -> bool {
    exists|b: Biome| b.code() == code
}

/// What decoding `code` gives: the biome stored under it, or the code
/// handed back in the error where there is no such biome.
///
/// This is the table of [`Biome::code`] read from the code to the biome;
/// that the two agree is proved in [`crate::laws`].
pub open spec fn decoded(code: i32) -> Result<Biome, UnknownBiomeCode> {
    match code {
        0 => Ok(Biome::Ocean),
        1 => Ok(Biome::Plains),
        2 => Ok(Biome::Desert),
        3 => Ok(Biome::Mountains),
        4 => Ok(Biome::Forest),
        5 => Ok(Biome::Taiga),
        6 => Ok(Biome::Swamp),
        7 => Ok(Biome::River),
        8 => Ok(Biome::Nether),
        9 => Ok(Biome::TheEnd),
        10 => Ok(Biome::FrozenOcean),
        11 => Ok(Biome::FrozenRiver),
        12 => Ok(Biome::SnowyTundra),
        13 => Ok(Biome::SnowyMountains),
        14 => Ok(Biome::MushroomFields),
        15 => Ok(Biome::MushroomFieldShore),
        16 => Ok(Biome::Beach),
        17 => Ok(Biome::DesertHills),
        18 => Ok(Biome::WoodedHills),
        19 => Ok(Biome::TaigaHills),
        20 => Ok(Biome::MountainEdge),
        21 => Ok(Biome::Jungle),
        22 => Ok(Biome::JungleHills),
        23 => Ok(Biome::JungleEdge),
        24 => Ok(Biome::DeepOcean),
        25 => Ok(Biome::StoneShore),
        26 => Ok(Biome::SnowyBeach),
        27 => Ok(Biome::BirchForest),
        28 => Ok(Biome::BirchForestHills),
        29 => Ok(Biome::DarkForest),
        30 => Ok(Biome::SnowyTaiga),
        31 => Ok(Biome::SnowyTaigaHills),
        32 => Ok(Biome::GiantTreeTaiga),
        33 => Ok(Biome::GiantTreeTaigaHills),
        34 => Ok(Biome::WoodedMountains),
        35 => Ok(Biome::Savanna),
        36 => Ok(Biome::SavannaPlateau),
        37 => Ok(Biome::Badlands),
        38 => Ok(Biome::WoodedBadlandsPlateau),
        39 => Ok(Biome::BadlandsPlateau),
        40 => Ok(Biome::SmallEndIslands),
        41 => Ok(Biome::EndMidlands),
        42 => Ok(Biome::EndHighlands),
        43 => Ok(Biome::EndBarrens),
        44 => Ok(Biome::WarmOcean),
        45 => Ok(Biome::LukewarmOcean),
        46 => Ok(Biome::ColdOcean),
        47 => Ok(Biome::DeepWarmOcean),
        48 => Ok(Biome::DeepLukewarmOcean),
        49 => Ok(Biome::DeepColdOcean),
        50 => Ok(Biome::DeepFrozenOcean),
        127 => Ok(Biome::TheVoid),
        129 => Ok(Biome::SunflowerPlains),
        130 => Ok(Biome::DesertLakes),
        131 => Ok(Biome::GravellyMountains),
        132 => Ok(Biome::FlowerForest),
        133 => Ok(Biome::TaigaMountains),
        134 => Ok(Biome::SwampHills),
        140 => Ok(Biome::IceSpikes),
        149 => Ok(Biome::ModifiedJungle),
        151 => Ok(Biome::ModifiedJungleEdge),
        155 => Ok(Biome::TallBirchForest),
        156 => Ok(Biome::TallBirchHills),
        157 => Ok(Biome::DarkForestHills),
        158 => Ok(Biome::SnowyTaigaMountains),
        160 => Ok(Biome::GiantSpruceTaiga),
        161 => Ok(Biome::GiantSpruceTaigaHills),
        162 => Ok(Biome::ModifiedGravellyMountains),
        163 => Ok(Biome::ShatteredSavanna),
        164 => Ok(Biome::ShatteredSavannaPlateau),
        165 => Ok(Biome::ErodedBadlands),
        166 => Ok(Biome::ModifiedWoodedBadlandsPlateau),
        167 => Ok(Biome::ModifiedBadlandsPlateau),
        168 => Ok(Biome::BambooJungle),
        169 => Ok(Biome::BambooJungleHills),
        _ => Err(UnknownBiomeCode(code)),
    }
}

/// The code of a biome. Every biome has one, so this never fails.
pub fn encode(id: Biome) -> (code: i32)
    ensures
        code == id.code(),
{
    match id {
        Biome::Ocean => 0,
        Biome::DeepOcean => 24,
        Biome::FrozenOcean => 10,
        Biome::DeepFrozenOcean => 50,
        Biome::ColdOcean => 46,
        Biome::DeepColdOcean => 49,
        Biome::LukewarmOcean => 45,
        Biome::DeepLukewarmOcean => 48,
        Biome::WarmOcean => 44,
        Biome::DeepWarmOcean => 47,
        Biome::River => 7,
        Biome::FrozenRiver => 11,
        Biome::Beach => 16,
        Biome::StoneShore => 25,
        Biome::SnowyBeach => 26,
        Biome::Forest => 4,
        Biome::WoodedHills => 18,
        Biome::FlowerForest => 132,
        Biome::BirchForest => 27,
        Biome::BirchForestHills => 28,
        Biome::TallBirchForest => 155,
        Biome::TallBirchHills => 156,
        Biome::DarkForest => 29,
        Biome::DarkForestHills => 157,
        Biome::Jungle => 21,
        Biome::JungleHills => 22,
        Biome::ModifiedJungle => 149,
        Biome::JungleEdge => 23,
        Biome::ModifiedJungleEdge => 151,
        Biome::BambooJungle => 168,
        Biome::BambooJungleHills => 169,
        Biome::Taiga => 5,
        Biome::TaigaHills => 19,
        Biome::TaigaMountains => 133,
        Biome::SnowyTaiga => 30,
        Biome::SnowyTaigaHills => 31,
        Biome::SnowyTaigaMountains => 158,
        Biome::GiantTreeTaiga => 32,
        Biome::GiantTreeTaigaHills => 33,
        Biome::GiantSpruceTaiga => 160,
        Biome::GiantSpruceTaigaHills => 161,
        Biome::MushroomFields => 14,
        Biome::MushroomFieldShore => 15,
        Biome::Swamp => 6,
        Biome::SwampHills => 134,
        Biome::Savanna => 35,
        Biome::SavannaPlateau => 36,
        Biome::ShatteredSavanna => 163,
        Biome::ShatteredSavannaPlateau => 164,
        Biome::Plains => 1,
        Biome::SunflowerPlains => 129,
        Biome::Desert => 2,
        Biome::DesertHills => 17,
        Biome::DesertLakes => 130,
        Biome::SnowyTundra => 12,
        Biome::SnowyMountains => 13,
        Biome::IceSpikes => 140,
        Biome::Mountains => 3,
        Biome::WoodedMountains => 34,
        Biome::GravellyMountains => 131,
        Biome::ModifiedGravellyMountains => 162,
        Biome::MountainEdge => 20,
        Biome::Badlands => 37,
        Biome::BadlandsPlateau => 39,
        Biome::ModifiedBadlandsPlateau => 167,
        Biome::WoodedBadlandsPlateau => 38,
        Biome::ModifiedWoodedBadlandsPlateau => 166,
        Biome::ErodedBadlands => 165,
        Biome::Nether => 8,
        Biome::TheEnd => 9,
        Biome::SmallEndIslands => 40,
        Biome::EndMidlands => 41,
        Biome::EndHighlands => 42,
        Biome::EndBarrens => 43,
        Biome::TheVoid => 127,
    }
}

/// The biome stored under `code`.
///
/// Succeeds exactly when `code` is the code of a biome of the registry, and
/// then returns that biome. Any other integer comes back in the error, so
/// that a code written by a later version of the game is never taken for a
/// biome of this one.
pub fn decode(code: i32) -> (r: Result<Biome, UnknownBiomeCode>)
    ensures
        r == decoded(code),
        r is Ok <==> is_known_code(code),
        r matches Ok(b) ==> b.code() == code,
        r matches Err(e) ==> e == UnknownBiomeCode(code),
{
    let r = match code {
        0 => Ok(Biome::Ocean),
        1 => Ok(Biome::Plains),
        2 => Ok(Biome::Desert),
        3 => Ok(Biome::Mountains),
        4 => Ok(Biome::Forest),
        5 => Ok(Biome::Taiga),
        6 => Ok(Biome::Swamp),
        7 => Ok(Biome::River),
        8 => Ok(Biome::Nether),
        9 => Ok(Biome::TheEnd),
        10 => Ok(Biome::FrozenOcean),
        11 => Ok(Biome::FrozenRiver),
        12 => Ok(Biome::SnowyTundra),
        13 => Ok(Biome::SnowyMountains),
        14 => Ok(Biome::MushroomFields),
        15 => Ok(Biome::MushroomFieldShore),
        16 => Ok(Biome::Beach),
        17 => Ok(Biome::DesertHills),
        18 => Ok(Biome::WoodedHills),
        19 => Ok(Biome::TaigaHills),
        20 => Ok(Biome::MountainEdge),
        21 => Ok(Biome::Jungle),
        22 => Ok(Biome::JungleHills),
        23 => Ok(Biome::JungleEdge),
        24 => Ok(Biome::DeepOcean),
        25 => Ok(Biome::StoneShore),
        26 => Ok(Biome::SnowyBeach),
        27 => Ok(Biome::BirchForest),
        28 => Ok(Biome::BirchForestHills),
        29 => Ok(Biome::DarkForest),
        30 => Ok(Biome::SnowyTaiga),
        31 => Ok(Biome::SnowyTaigaHills),
        32 => Ok(Biome::GiantTreeTaiga),
        33 => Ok(Biome::GiantTreeTaigaHills),
        34 => Ok(Biome::WoodedMountains),
        35 => Ok(Biome::Savanna),
        36 => Ok(Biome::SavannaPlateau),
        37 => Ok(Biome::Badlands),
        38 => Ok(Biome::WoodedBadlandsPlateau),
        39 => Ok(Biome::BadlandsPlateau),
        40 => Ok(Biome::SmallEndIslands),
        41 => Ok(Biome::EndMidlands),
        42 => Ok(Biome::EndHighlands),
        43 => Ok(Biome::EndBarrens),
        44 => Ok(Biome::WarmOcean),
        45 => Ok(Biome::LukewarmOcean),
        46 => Ok(Biome::ColdOcean),
        47 => Ok(Biome::DeepWarmOcean),
        48 => Ok(Biome::DeepLukewarmOcean),
        49 => Ok(Biome::DeepColdOcean),
        50 => Ok(Biome::DeepFrozenOcean),
        127 => Ok(Biome::TheVoid),
        129 => Ok(Biome::SunflowerPlains),
        130 => Ok(Biome::DesertLakes),
        131 => Ok(Biome::GravellyMountains),
        132 => Ok(Biome::FlowerForest),
        133 => Ok(Biome::TaigaMountains),
        134 => Ok(Biome::SwampHills),
        140 => Ok(Biome::IceSpikes),
        149 => Ok(Biome::ModifiedJungle),
        151 => Ok(Biome::ModifiedJungleEdge),
        155 => Ok(Biome::TallBirchForest),
        156 => Ok(Biome::TallBirchHills),
        157 => Ok(Biome::DarkForestHills),
        158 => Ok(Biome::SnowyTaigaMountains),
        160 => Ok(Biome::GiantSpruceTaiga),
        161 => Ok(Biome::GiantSpruceTaigaHills),
        162 => Ok(Biome::ModifiedGravellyMountains),
        163 => Ok(Biome::ShatteredSavanna),
        164 => Ok(Biome::ShatteredSavannaPlateau),
        165 => Ok(Biome::ErodedBadlands),
        166 => Ok(Biome::ModifiedWoodedBadlandsPlateau),
        167 => Ok(Biome::ModifiedBadlandsPlateau),
        168 => Ok(Biome::BambooJungle),
        169 => Ok(Biome::BambooJungleHills),
        _ => Err(UnknownBiomeCode(code)),
    };
    proof {
        lemma_encode_decode(code);
    }
    r
}

impl From<Biome> for i32 {
    /// The same as [`encode`].
    fn from(id: Biome) -> (code: i32) {
        encode(id)
    }
}

impl vstd::std_specs::convert::FromSpecImpl<Biome> for i32 {
    open spec fn obeys_from_spec() -> bool {
        true
    }

    open spec fn from_spec(id: Biome) -> i32 {
        id.code()
    }
}

impl TryFrom<i32> for Biome {
    type Error = UnknownBiomeCode;

    /// The same as [`decode`].
    fn try_from(code: i32) -> (r: Result<Biome, UnknownBiomeCode>) {
        decode(code)
    }
}

impl vstd::std_specs::convert::TryFromSpecImpl<i32> for Biome {
    open spec fn obeys_try_from_spec() -> bool {
        true
    }

    open spec fn try_from_spec(code: i32) -> Result<Biome, UnknownBiomeCode> {
        decoded(code)
    }
}

} // verus!
