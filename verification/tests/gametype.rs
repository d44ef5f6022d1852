use olg_server::gametype::Gametype;

#[test]
fn test_gametype_to_tag() {
    assert_eq!(Gametype::FreeForAll.to_tag(), "dm");
    assert_eq!(Gametype::TeamDeathmatch.to_tag(), "war");
    assert_eq!(Gametype::Domination.to_tag(), "dom");
    assert_eq!(Gametype::SearchAndDestroy.to_tag(), "sd");
    assert_eq!(Gametype::Headquarters.to_tag(), "koth");
    assert_eq!(Gametype::Sabotage.to_tag(), "sab");
}

#[test]
fn test_gametype_from_tag() {
    assert_eq!(Gametype::from_tag("dm"), Some(Gametype::FreeForAll));
    assert_eq!(Gametype::from_tag("war"), Some(Gametype::TeamDeathmatch));
    assert_eq!(Gametype::from_tag("dom"), Some(Gametype::Domination));
    assert_eq!(Gametype::from_tag("sd"), Some(Gametype::SearchAndDestroy));
    assert_eq!(Gametype::from_tag("koth"), Some(Gametype::Headquarters));
    assert_eq!(Gametype::from_tag("sab"), Some(Gametype::Sabotage));
    assert_eq!(Gametype::from_tag("invalid"), None);
}

#[test]
fn test_gametype_tag_roundtrip() {
    let all = [
        Gametype::FreeForAll,
        Gametype::TeamDeathmatch,
        Gametype::Domination,
        Gametype::SearchAndDestroy,
        Gametype::Headquarters,
        Gametype::Sabotage,
    ];
    for gametype in all {
        assert_eq!(Gametype::from_tag(gametype.to_tag()), Some(gametype.clone()));
    }
}

#[test]
fn test_parse_tag_known() {
    let parsed = Gametype::parse_tag("koth");
    assert!(matches!(parsed, Ok(Gametype::Headquarters)));
}

#[test]
fn test_parse_tag_unknown() {
    let parsed = Gametype::parse_tag("unknown");
    match parsed {
        Ok(_) => panic!("an unknown tag must be rejected"),
        Err(invalid) => {
            assert_eq!(invalid.0, "unknown");
            assert_eq!(invalid.message(), "Invalid gametype: unknown");
        }
    }
}
