use koii_sequencer::command::Command;
use koii_sequencer::config::Config;
use koii_sequencer::input::{InputMapper, KeyBinding, KeyCode, KeyModifiers};

#[test]
fn test_default_config() {
    let config = Config::default();

    assert_eq!(config.audio.default_tempo, 120);
    assert_eq!(config.ui.flash_duration_ms, 150);
    assert_eq!(config.key_bindings.transport.play_stop, " ");
    assert_eq!(config.key_bindings.pad_for_key("7"), Some(0));
}

#[test]
fn test_parse_key_code() {
    let config = Config::default();

    assert_eq!(config.parse_key_code(" "), Some(KeyCode::Char(' ')));
    assert_eq!(config.parse_key_code("Tab"), Some(KeyCode::Tab));
    assert_eq!(config.parse_key_code("F1"), Some(KeyCode::F(1)));
    assert_eq!(config.parse_key_code("a"), Some(KeyCode::Char('a')));
    assert_eq!(config.parse_key_code("invalid"), None);
}

#[test]
fn key_names_follow_the_byte_rules() {
    let config = Config::default();
    assert_eq!(config.parse_key_code("F"), Some(KeyCode::Char('F')));
    assert_eq!(config.parse_key_code("F12"), Some(KeyCode::F(12)));
    assert_eq!(config.parse_key_code("F+7"), Some(KeyCode::F(7)));
    assert_eq!(config.parse_key_code("F255"), Some(KeyCode::F(255)));
    assert_eq!(config.parse_key_code("F256"), None);
    assert_eq!(config.parse_key_code("Fx"), None);
    assert_eq!(config.parse_key_code("é"), None);
    assert_eq!(config.parse_key_code(""), None);
    assert_eq!(config.parse_key_code("PageDown"), Some(KeyCode::PageDown));
}

#[test]
fn test_key_binding_creation() {
    let binding = KeyBinding::new(KeyCode::Char('a'));
    assert_eq!(binding.code, KeyCode::Char('a'));
    assert_eq!(binding.modifiers, KeyModifiers::empty());

    let binding = KeyBinding::with_modifiers(KeyCode::Char('c'), KeyModifiers::control());
    assert_eq!(binding.code, KeyCode::Char('c'));
    assert_eq!(binding.modifiers, KeyModifiers::control());
}

#[test]
fn test_default_input_mapper() {
    let mapper = InputMapper::default();

    let space_key = KeyBinding::new(KeyCode::Char(' '));
    assert_eq!(mapper.get_command(&space_key), Some(&Command::TogglePlayback));

    let esc_key = KeyBinding::new(KeyCode::Esc);
    assert_eq!(mapper.get_command(&esc_key), Some(&Command::Quit));

    let pad_key = KeyBinding::new(KeyCode::Char('7'));
    assert_eq!(mapper.get_command(&pad_key), Some(&Command::TriggerPad(0)));
}

#[test]
fn test_custom_bindings() {
    let mut mapper = InputMapper::new();

    let custom_key = KeyBinding::new(KeyCode::Char('x'));
    mapper.add_binding(custom_key.clone(), Command::TogglePlayback);
    assert_eq!(mapper.get_command(&custom_key), Some(&Command::TogglePlayback));

    let removed = mapper.remove_binding(&custom_key);
    assert_eq!(removed, Some(Command::TogglePlayback));
    assert_eq!(mapper.get_command(&custom_key), None);
}

#[test]
fn test_all_pad_mappings() {
    let mapper = InputMapper::default();

    let pad_keys = [
        ('7', 0), ('8', 1), ('9', 2), ('0', 3),
        ('u', 4), ('i', 5), ('o', 6), ('p', 7),
        ('j', 8), ('k', 9), ('l', 10), (';', 11),
        ('m', 12), (',', 13), ('.', 14), ('/', 15),
    ];

    for (key, expected_pad) in pad_keys {
        let binding = KeyBinding::new(KeyCode::Char(key));
        assert_eq!(mapper.get_command(&binding), Some(&Command::TriggerPad(expected_pad)));
    }
}

#[test]
fn config_table_matches_default_table() {
    let config = Config::default();
    let from_config = InputMapper::from_config(&config).ok().unwrap();
    let default = InputMapper::default();
    let keys = [
        KeyCode::Char(' '), KeyCode::Char('r'), KeyCode::Tab, KeyCode::BackTab, KeyCode::Up,
        KeyCode::Down, KeyCode::Char('='), KeyCode::Char('-'), KeyCode::Char('M'), KeyCode::Char('1'),
        KeyCode::Char('$'), KeyCode::F(3), KeyCode::Char('/'), KeyCode::Esc, KeyCode::Char('z'),
    ];
    for code in keys {
        let binding = KeyBinding::new(code);
        assert_eq!(from_config.get_command(&binding), default.get_command(&binding));
    }
    let shifted = KeyBinding::with_modifiers(KeyCode::Char('M'), KeyModifiers::shift());
    assert_eq!(default.get_command(&shifted), None);
}

#[test]
fn later_config_keys_take_over() {
    let mut config = Config::default();
    config.key_bindings.transport.record = "7".to_string();
    config.key_bindings.navigation.next_group = "no such key".to_string();
    let mapper = InputMapper::from_config(&config).ok().unwrap();
    assert_eq!(mapper.get_command(&KeyBinding::new(KeyCode::Char('7'))), Some(&Command::TriggerPad(0)));
    assert_eq!(mapper.get_command(&KeyBinding::new(KeyCode::Char('r'))), None);
    assert_eq!(mapper.get_command(&KeyBinding::new(KeyCode::Tab)), None);
    assert_eq!(mapper.get_command(&KeyBinding::new(KeyCode::Up)), Some(&Command::IncreaseTempo(5)));
    assert_eq!(mapper.get_command(&KeyBinding::new(KeyCode::Char('!'))), Some(&Command::AdjustGroupVolume(0, -50)));
}

#[test]
fn default_pad_keys_are_distinct() {
    let config = Config::default();
    let pads = &config.key_bindings.pads;
    for i in 0..pads.len() {
        for j in (i + 1)..pads.len() {
            assert_ne!(pads[i].0, pads[j].0);
        }
    }
}
