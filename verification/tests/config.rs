use nano::config::{EditorConfiguration, NanoConfig, NanoConfiguration, DEFAULT_THEME};

#[test]
fn configuration_parse_config() {
    let nano_config = NanoConfiguration::load(Some(String::from("base16-mocha.dark")), Some(true));
    assert_eq!(nano_config.appearance.theme, "base16-mocha.dark");
}

#[test]
fn parse_config() {
    let nano_config = NanoConfiguration::load(Some(String::from("base16-mocha.dark")), None);
    assert_eq!(nano_config.appearance.theme, "base16-mocha.dark");
}

#[test]
fn test_turn_on_line_numbers() {
    let config = NanoConfiguration::load(Some(String::from("base16-mocha.dark")), Some(true));
    let turn_on = config.editor.line_numbers;
    assert_eq!(turn_on, true);
}

#[test]
fn default_configuration() {
    let config = NanoConfiguration::default();
    assert_eq!(config.theme(), "Monokai");
    assert_eq!(config.theme(), DEFAULT_THEME);
    assert!(!config.turn_on_line_numbers());
    assert!(!EditorConfiguration::default().line_numbers);
}

#[test]
fn settings_that_were_not_found_keep_their_defaults() {
    let config = NanoConfiguration::load(None, None);
    assert_eq!(config.theme(), "Monokai");
    assert!(!config.turn_on_line_numbers());
    let config = NanoConfiguration::load(None, Some(true));
    assert_eq!(config.theme(), "Monokai");
    assert!(config.turn_on_line_numbers());
    let config = NanoConfiguration::load(Some(String::from("InspiredGitHub")), Some(false));
    assert_eq!(config.theme(), "InspiredGitHub");
    assert!(!config.turn_on_line_numbers());
}

#[test]
fn appearance_under_its_other_name() {
    let appearance = NanoConfig { theme: String::from("InspiredGitHub") };
    assert_eq!(appearance.theme, "InspiredGitHub");
    let config = NanoConfiguration::load(Some(appearance.theme.clone()), None);
    assert_eq!(config.appearance.theme, appearance.theme);
}
