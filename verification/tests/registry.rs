use biomes::{decode, encode, Biome, UnknownBiomeCode};

/// Every biome with its published code.
fn published() -> Vec<(i32, Biome)> {
    vec![
        (0, Biome::Ocean),
        (24, Biome::DeepOcean),
        (10, Biome::FrozenOcean),
        (50, Biome::DeepFrozenOcean),
        (46, Biome::ColdOcean),
        (49, Biome::DeepColdOcean),
        (45, Biome::LukewarmOcean),
        (48, Biome::DeepLukewarmOcean),
        (44, Biome::WarmOcean),
        (47, Biome::DeepWarmOcean),
        (7, Biome::River),
        (11, Biome::FrozenRiver),
        (16, Biome::Beach),
        (25, Biome::StoneShore),
        (26, Biome::SnowyBeach),
        (4, Biome::Forest),
        (18, Biome::WoodedHills),
        (132, Biome::FlowerForest),
        (27, Biome::BirchForest),
        (28, Biome::BirchForestHills),
        (155, Biome::TallBirchForest),
        (156, Biome::TallBirchHills),
        (29, Biome::DarkForest),
        (157, Biome::DarkForestHills),
        (21, Biome::Jungle),
        (22, Biome::JungleHills),
        (149, Biome::ModifiedJungle),
        (23, Biome::JungleEdge),
        (151, Biome::ModifiedJungleEdge),
        (168, Biome::BambooJungle),
        (169, Biome::BambooJungleHills),
        (5, Biome::Taiga),
        (19, Biome::TaigaHills),
        (133, Biome::TaigaMountains),
        (30, Biome::SnowyTaiga),
        (31, Biome::SnowyTaigaHills),
        (158, Biome::SnowyTaigaMountains),
        (32, Biome::GiantTreeTaiga),
        (33, Biome::GiantTreeTaigaHills),
        (160, Biome::GiantSpruceTaiga),
        (161, Biome::GiantSpruceTaigaHills),
        (14, Biome::MushroomFields),
        (15, Biome::MushroomFieldShore),
        (6, Biome::Swamp),
        (134, Biome::SwampHills),
        (35, Biome::Savanna),
        (36, Biome::SavannaPlateau),
        (163, Biome::ShatteredSavanna),
        (164, Biome::ShatteredSavannaPlateau),
        (1, Biome::Plains),
        (129, Biome::SunflowerPlains),
        (2, Biome::Desert),
        (17, Biome::DesertHills),
        (130, Biome::DesertLakes),
        (12, Biome::SnowyTundra),
        (13, Biome::SnowyMountains),
        (140, Biome::IceSpikes),
        (3, Biome::Mountains),
        (34, Biome::WoodedMountains),
        (131, Biome::GravellyMountains),
        (162, Biome::ModifiedGravellyMountains),
        (20, Biome::MountainEdge),
        (37, Biome::Badlands),
        (39, Biome::BadlandsPlateau),
        (167, Biome::ModifiedBadlandsPlateau),
        (38, Biome::WoodedBadlandsPlateau),
        (166, Biome::ModifiedWoodedBadlandsPlateau),
        (165, Biome::ErodedBadlands),
        (8, Biome::Nether),
        (9, Biome::TheEnd),
        (40, Biome::SmallEndIslands),
        (41, Biome::EndMidlands),
        (42, Biome::EndHighlands),
        (43, Biome::EndBarrens),
        (127, Biome::TheVoid),
    ]
}

#[test]
fn registry_has_seventy_five_biomes() {
    assert_eq!(published().len(), 75);
}

#[test]
fn encode_gives_the_published_code() {
    for (code, biome) in published() {
        assert_eq!(encode(biome), code);
    }
}

#[test]
fn decode_gives_the_published_biome() {
    for (code, biome) in published() {
        assert_eq!(decode(code), Ok(biome));
    }
}

#[test]
fn decode_examples() {
    assert_eq!(decode(0), Ok(Biome::Ocean));
    assert_eq!(decode(1), Ok(Biome::Plains));
    assert_eq!(decode(2), Ok(Biome::Desert));
    assert_eq!(decode(24), Ok(Biome::DeepOcean));
    assert_eq!(decode(127), Ok(Biome::TheVoid));
}

#[test]
fn encode_examples() {
    assert_eq!(encode(Biome::Ocean), 0);
    assert_eq!(encode(Biome::DeepOcean), 24);
    assert_eq!(encode(Biome::FlowerForest), 132);
    assert_eq!(encode(Biome::BambooJungleHills), 169);
    assert_eq!(encode(Biome::TheVoid), 127);
}

#[test]
fn round_trip_from_biome() {
    for (_, biome) in published() {
        assert_eq!(decode(encode(biome)), Ok(biome));
    }
}

#[test]
fn round_trip_from_code() {
    let mut code: i32 = -300;
    while code <= 300 {
        match decode(code) {
            Ok(biome) => assert_eq!(encode(biome), code),
            Err(e) => assert_eq!(e, UnknownBiomeCode(code)),
        }
        code += 1;
    }
}

#[test]
fn codes_are_pairwise_distinct() {
    let all = published();
    for (i, (code_a, biome_a)) in all.iter().enumerate() {
        for (code_b, biome_b) in all.iter().skip(i + 1) {
            assert_ne!(biome_a, biome_b);
            assert_ne!(code_a, code_b);
            assert_ne!(encode(*biome_a), encode(*biome_b));
        }
    }
}

#[test]
fn decode_rejects_unknown_code() {
    assert_eq!(decode(9999), Err(UnknownBiomeCode(9999)));
    assert_eq!(decode(-1), Err(UnknownBiomeCode(-1)));
}

#[test]
fn decode_rejects_the_gaps_between_published_codes() {
    let gaps: Vec<i32> = vec![
        51, 52, 100, 126, 128, 135, 139, 141, 148, 150, 152, 154, 159, 170, 171, 172, 173, 255,
        256,
    ];
    for code in gaps {
        assert_eq!(decode(code), Err(UnknownBiomeCode(code)));
    }
}

#[test]
fn decode_rejects_the_extremes() {
    assert_eq!(decode(i32::MIN), Err(UnknownBiomeCode(i32::MIN)));
    assert_eq!(decode(i32::MAX), Err(UnknownBiomeCode(i32::MAX)));
}

#[test]
fn decode_accepts_exactly_the_published_codes() {
    let known: Vec<i32> = published().iter().map(|(code, _)| *code).collect();
    let mut code: i32 = -1000;
    while code <= 1000 {
        assert_eq!(decode(code).is_ok(), known.contains(&code));
        code += 1;
    }
}

#[test]
fn published_codes_fall_in_the_listed_ranges() {
    for (code, _) in published() {
        let listed = (0..=50).contains(&code)
            || code == 127
            || (129..=134).contains(&code)
            || code == 140
            || code == 149
            || code == 151
            || (155..=158).contains(&code)
            || (160..=169).contains(&code);
        assert!(listed);
    }
}

#[test]
fn error_carries_the_rejected_code() {
    match decode(4242) {
        Ok(_) => panic!("4242 is no biome"),
        Err(UnknownBiomeCode(code)) => assert_eq!(code, 4242),
    }
}

#[test]
fn conversion_traits_agree_with_the_functions() {
    for (code, biome) in published() {
        assert_eq!(i32::from(biome), code);
        let into: i32 = biome.into();
        assert_eq!(into, code);
        assert_eq!(Biome::try_from(code), Ok(biome));
    }
    assert_eq!(Biome::try_from(9999), Err(UnknownBiomeCode(9999)));
    let tried: Result<Biome, UnknownBiomeCode> = (-1).try_into();
    assert_eq!(tried, Err(UnknownBiomeCode(-1)));
}

#[test]
fn decode_is_repeatable() {
    let mut code: i32 = -10;
    while code <= 200 {
        assert_eq!(decode(code), decode(code));
        code += 1;
    }
    for (_, biome) in published() {
        assert_eq!(encode(biome), encode(biome));
    }
}
