use fretboard::Config;
use fretboard::Note;
use fretboard::Pitch;
use fretboard::SchemaConfig;
use fretboard::SchemaTuning;
use fretboard::ThemeError;
use fretboard::ThemeName;
use fretboard::TuningError;

fn entry(data: &[&str], frets: Option<u8>, name: Option<&str>) -> SchemaTuning {
    SchemaTuning {
        data: data.iter().map(|s| String::from(*s)).collect(),
        frets,
        name: name.map(String::from),
    }
}

#[test]
fn into_tuning_parses_pitches_and_takes_given_name() {
    let t = entry(&["E2", "A2"], Some(21), Some("drop")).into_tuning(24).unwrap();
    assert_eq!(t.pitches, vec![Pitch::new(Note::E, 2), Pitch::new(Note::A, 2)]);
    assert_eq!(t.total_frets, 21);
    assert_eq!(t.name, "drop");
}

#[test]
fn into_tuning_defaults_frets_and_name() {
    let t = entry(&["E2", "A#2", "D-1"], None, None).into_tuning(24).unwrap();
    assert_eq!(t.total_frets, 24);
    assert_eq!(t.name, "E2A#2D-1");
}

#[test]
fn into_tuning_reports_first_bad_pitch() {
    let r = entry(&["E2", "H4", "Q9"], None, None).into_tuning(24);
    assert_eq!(r.unwrap_err(), TuningError::ParsePitch(String::from("H4")));
}

#[test]
fn from_schema_selects_the_named_default_tuning() {
    let schema = SchemaConfig {
        default_frets: 24,
        default_tuning: Some(String::from("second")),
        theme_name: ThemeName::Latte,
        tuning: vec![
            entry(&["E2"], None, Some("first")),
            entry(&["A2"], None, Some("second")),
        ],
    };
    let config = Config::from_schema(schema).unwrap();
    assert_eq!(config.theme_name, ThemeName::Latte);
    assert_eq!(config.tuning.get_selected().name, "second");
}

#[test]
fn from_schema_falls_back_to_first_tuning_for_unknown_name() {
    let schema = SchemaConfig {
        default_frets: 24,
        default_tuning: Some(String::from("nowhere")),
        theme_name: ThemeName::Mocha,
        tuning: vec![
            entry(&["E2"], None, Some("first")),
            entry(&["A2"], None, Some("second")),
        ],
    };
    let config = Config::from_schema(schema).unwrap();
    assert_eq!(config.tuning.get_selected().name, "first");
}

#[test]
fn from_schema_fails_on_empty_tuning_list() {
    let schema = SchemaConfig {
        default_frets: 24,
        default_tuning: None,
        theme_name: ThemeName::Mocha,
        tuning: vec![],
    };
    let r = Config::from_schema(schema);
    assert!(matches!(r, Err(TuningError::CollectionSelectEmpty)));
}

#[test]
fn from_schema_reports_bad_pitch_text() {
    let schema = SchemaConfig {
        default_frets: 24,
        default_tuning: None,
        theme_name: ThemeName::Mocha,
        tuning: vec![entry(&["E2"], None, None), entry(&["Z3"], None, None)],
    };
    let r = Config::from_schema(schema);
    assert_eq!(r.unwrap_err(), TuningError::ParsePitch(String::from("Z3")));
}

#[test]
fn default_config_is_the_builtin_fallback() {
    let config = Config::default();
    assert_eq!(config.theme_name, ThemeName::Mocha);
    assert_eq!(config.tuning.items.len(), 1);
    assert_eq!(config.tuning.get_selected().total_frets, 24);
    assert_eq!(config.tuning.get_selected().pitches.len(), 6);
}

#[test]
fn theme_names_resolve_from_configuration_strings() {
    assert_eq!(ThemeName::from_str("catppuccin-frappe"), Ok(ThemeName::Frappe));
    assert_eq!(ThemeName::from_str("catppuccin-latte"), Ok(ThemeName::Latte));
    assert_eq!(ThemeName::from_str("catppuccin-macchiato"), Ok(ThemeName::Macchiato));
    assert_eq!(ThemeName::from_str("catppuccin-mocha"), Ok(ThemeName::Mocha));
    assert_eq!(
        ThemeName::from_str("solarized"),
        Err(ThemeError::Unknown(String::from("solarized")))
    );
}
