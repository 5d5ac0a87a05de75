use rusty_anvil::chunks::ChunkStatus;
use rusty_anvil::error::ChunkLoadError;

#[test]
fn status_full_parses_in_both_forms() {
    assert_eq!(ChunkStatus::try_from("minecraft:full").unwrap(), ChunkStatus::Full);
    assert_eq!(ChunkStatus::try_from("full").unwrap(), ChunkStatus::Full);
}

#[test]
fn unknown_status_is_malformed_with_the_string() {
    match ChunkStatus::try_from("minecraft:bogus") {
        Err(ChunkLoadError::MalformedChunk(msg)) => assert!(msg.contains("bogus")),
        other => panic!("expected MalformedChunk, got {other:?}"),
    }
    assert!(matches!(
        ChunkStatus::try_from(""),
        Err(ChunkLoadError::MalformedChunk(_))
    ));
    // the prefix is stripped at most once
    assert!(matches!(
        ChunkStatus::try_from("minecraft:minecraft:full"),
        Err(ChunkLoadError::MalformedChunk(_))
    ));
}

#[test]
fn every_status_parses_bare_and_prefixed() {
    let cases: Vec<(&str, ChunkStatus)> = vec![
        ("empty", ChunkStatus::Empty),
        ("structure_starts", ChunkStatus::StructureStarts),
        ("structure_references", ChunkStatus::StructureReferences),
        ("biomes", ChunkStatus::Biomes),
        ("noise", ChunkStatus::Noise),
        ("surface", ChunkStatus::Surface),
        ("carvers", ChunkStatus::Carvers),
        ("liquid_carvers", ChunkStatus::LiquidCarvers),
        ("features", ChunkStatus::Features),
        ("light", ChunkStatus::Light),
        ("initialize_light", ChunkStatus::InitializeLight),
        ("spawn", ChunkStatus::Spawn),
        ("full", ChunkStatus::Full),
    ];
    for (name, status) in cases {
        assert_eq!(ChunkStatus::try_from(name).unwrap(), status);
        let prefixed = format!("minecraft:{name}");
        assert_eq!(ChunkStatus::try_from(&prefixed).unwrap(), status);
    }
}

#[test]
fn statuses_order_by_pipeline_position() {
    assert!(ChunkStatus::Empty < ChunkStatus::StructureStarts);
    assert!(ChunkStatus::Biomes < ChunkStatus::Noise);
    assert!(ChunkStatus::Noise < ChunkStatus::Surface);
    assert!(ChunkStatus::Light < ChunkStatus::InitializeLight);
    assert!(ChunkStatus::Spawn < ChunkStatus::Full);
    assert!(ChunkStatus::Empty < ChunkStatus::Full);
}
