use arena_harness::character::{
    default_registration_version, default_remembers, nonempty_or, Capability, CapabilitySet, CharacterError,
    CharacterSheetDocument,
};
use arena_harness::config::{ConfigCore, FloatSettingFindings};

fn config(pairs: &[(&str, &str)]) -> ConfigCore {
    let env: Vec<(String, String)> = pairs.iter().map(|(k, v)| (k.to_string(), v.to_string())).collect();
    let floats = FloatSettingFindings {
        tactical_max_hz: None,
        idle_tactical_hz: None,
        tactician_temperature: None,
        strategist_temperature: None,
        local_rag_minimum_score: None,
        run_max_openrouter_cost_usd: None,
    };
    ConfigCore::from_lookup(&env, &floats).expect("configuration")
}

fn document(capabilities: &[Capability]) -> CharacterSheetDocument {
    CharacterSheetDocument {
        id: "barnaby".to_owned(),
        player_name: "Barnaby".to_owned(),
        registration_version: default_registration_version(),
        class_path: Some("journeyman".to_owned()),
        home_scene: "reldens-house-1".to_owned(),
        persona: Some("An innkeeper who never leaves the inn.".to_owned()),
        persona_file: None,
        capabilities: CapabilitySet::from_list(capabilities),
        strategist_model: None,
        tactician_model: None,
        initial_goal: None,
        remembers: default_remembers(),
    }
}

fn invalid_reason(error: CharacterError) -> String {
    match error {
        CharacterError::Invalid { reason, .. } => reason,
        other => panic!("expected an invalid sheet, got {other:?}"),
    }
}

#[test]
fn barnaby_is_confined_to_the_inn_by_body_capabilities() {
    let config = config(&[("ARENA_API_KEY", "arena"), ("OPENROUTER_API_KEY", "router")]);
    let barnaby = document(&[Capability::Speak, Capability::TalkToFolk, Capability::Purpose])
        .into_sheet("characters/barnaby.json", None, None, &config)
        .expect("Barnaby sheet");

    assert_eq!(barnaby.class_path.as_deref(), Some("journeyman"));
    assert_eq!(barnaby.home_scene, "reldens-house-1");
    assert!(barnaby.capabilities.contains(Capability::Speak));
    assert!(barnaby.capabilities.contains(Capability::TalkToFolk));
    assert!(!barnaby.capabilities.contains(Capability::Walk));
    assert!(!barnaby.capabilities.contains(Capability::Doors));
    assert!(!barnaby.capabilities.contains(Capability::Fight));
    assert!(barnaby.initial_goal.is_none());
    assert!(barnaby.remembers);
}

#[test]
fn loads_an_arbitrary_character_without_a_rust_registry_entry() {
    let config = config(&[
        ("ARENA_API_KEY", "arena"),
        ("NPC_STRATEGIST_MODEL", "provider/strategist"),
        ("NPC_TACTICIAN_MODEL", "provider/tactician"),
    ]);
    let orin = CharacterSheetDocument {
        id: "orin".to_owned(),
        player_name: "Orin".to_owned(),
        registration_version: default_registration_version(),
        class_path: Some("sorcerer".to_owned()),
        home_scene: "reldens-town".to_owned(),
        persona: None,
        persona_file: Some("persona.md".to_owned()),
        capabilities: CapabilitySet::from_list(&[Capability::Speak, Capability::Walk, Capability::Purpose]),
        strategist_model: None,
        tactician_model: None,
        initial_goal: None,
        remembers: default_remembers(),
    };

    let file = orin.persona_file_to_read("character.json").expect("valid document");
    assert_eq!(file.as_deref(), Some("persona.md"));
    let persona = "A cartographer who records only firsthand facts.".to_owned();
    let sheet = orin.into_sheet("character.json", Some(persona), None, &config).expect("load character sheet");

    assert_eq!(sheet.id, "orin");
    assert_eq!(sheet.class_path.as_deref(), Some("sorcerer"));
    assert!(sheet.persona.contains("firsthand"));
    assert_eq!(sheet.strategist_model, "provider/strategist");
    assert_eq!(sheet.tactician_model, "provider/tactician");
    for capability in [Capability::Speak, Capability::Walk, Capability::Purpose] {
        assert!(sheet.capabilities.contains(capability));
    }
    for capability in [Capability::TalkToFolk, Capability::Doors, Capability::Fight, Capability::Duel] {
        assert!(!sheet.capabilities.contains(capability));
    }
}

#[test]
fn each_invalid_field_is_reported_in_order() {
    let config = config(&[("ARENA_API_KEY", "arena")]);
    let mut doc = document(&[Capability::Speak]);
    doc.id = "  ".to_owned();
    doc.home_scene = String::new();
    assert_eq!(invalid_reason(doc.into_sheet("a.json", None, None, &config).unwrap_err()), "id must not be empty");

    let mut doc = document(&[Capability::Speak]);
    doc.player_name = "\t".to_owned();
    assert_eq!(
        invalid_reason(doc.into_sheet("a.json", None, None, &config).unwrap_err()),
        "player_name must not be empty"
    );

    let mut doc = document(&[Capability::Speak]);
    doc.home_scene = String::new();
    assert_eq!(
        invalid_reason(doc.into_sheet("a.json", None, None, &config).unwrap_err()),
        "home_scene must not be empty"
    );

    let mut doc = document(&[Capability::Speak]);
    doc.registration_version = 0;
    assert_eq!(
        invalid_reason(doc.into_sheet("a.json", None, None, &config).unwrap_err()),
        "registration_version must be positive"
    );

    let doc = document(&[]);
    assert_eq!(
        invalid_reason(doc.into_sheet("a.json", None, None, &config).unwrap_err()),
        "capabilities must not be empty"
    );

    let mut doc = document(&[Capability::Speak]);
    doc.persona_file = Some("persona.md".to_owned());
    assert_eq!(
        invalid_reason(doc.persona_file_to_read("a.json").unwrap_err()),
        "set exactly one of persona or persona_file"
    );

    let mut doc = document(&[Capability::Speak]);
    doc.persona = Some("   ".to_owned());
    let error = doc.into_sheet("a.json", None, None, &config).unwrap_err();
    assert_eq!(error.message(), "character sheet a.json is invalid: set a non-empty persona or a persona_file");

    let mut doc = document(&[Capability::Speak]);
    doc.persona = None;
    assert_eq!(
        invalid_reason(doc.into_sheet("a.json", None, None, &config).unwrap_err()),
        "set a non-empty persona or a persona_file"
    );
}

#[test]
fn player_name_override_and_models_fall_back_only_when_blank() {
    let config = config(&[("ARENA_API_KEY", "arena"), ("NPC_STRATEGIST_MODEL", "provider/strategist")]);
    let mut doc = document(&[Capability::Speak]);
    doc.tactician_model = Some("own/tactician".to_owned());
    doc.strategist_model = Some(" ".to_owned());
    let sheet = doc.into_sheet("a.json", None, Some("Isolated Test".to_owned()), &config).expect("sheet");
    assert_eq!(sheet.player_name, "Isolated Test");
    assert_eq!(sheet.strategist_model, "provider/strategist");
    assert_eq!(sheet.tactician_model, "own/tactician");

    let sheet = document(&[Capability::Speak]).into_sheet("a.json", None, Some("  ".to_owned()), &config).expect("sheet");
    assert_eq!(sheet.player_name, "Barnaby");

    assert_eq!(nonempty_or(Some("x".to_owned()), "y"), "x");
    assert_eq!(nonempty_or(Some(" ".to_owned()), "y"), "y");
    assert_eq!(nonempty_or(None, "y"), "y");
}

#[test]
fn read_errors_name_the_file() {
    let error = CharacterError::ReadPersona { path: "p.md".to_owned(), message: "missing".to_owned() };
    assert_eq!(error.message(), "could not read persona p.md: missing");
    let error = CharacterError::Parse { path: "c.json".to_owned(), message: "bad".to_owned() };
    assert_eq!(error.message(), "character sheet c.json is not valid JSON: bad");
}
