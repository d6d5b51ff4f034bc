use std::path::PathBuf;

use projectm_sdl::settings::{
    resolve_settings, settings_file_decision, settings_file_step, Settings, SettingsFileStep, DEFAULT_BEAT_SENSITIVITY_BITS,
    DEFAULT_FRAME_RATE, DEFAULT_PRESET_DURATION_BITS,
};

fn unset() -> Settings {
    Settings {
        config_path: None,
        frame_rate: None,
        preset_path: None,
        texture_path: None,
        beat_sensitivity_bits: None,
        preset_duration_bits: None,
    }
}

#[test]
fn default_bit_patterns_are_the_documented_values() {
    assert_eq!(f32::from_bits(DEFAULT_BEAT_SENSITIVITY_BITS), 1.0f32);
    assert_eq!(f64::from_bits(DEFAULT_PRESET_DURATION_BITS), 10.0f64);
    assert_eq!(DEFAULT_FRAME_RATE, 60);
}

#[test]
fn default_settings_hold_rate_sensitivity_and_duration() {
    let s = Settings::default();
    assert_eq!(s.config_path, None);
    assert_eq!(s.frame_rate, Some(60));
    assert_eq!(s.preset_path, None);
    assert_eq!(s.texture_path, None);
    assert_eq!(s.beat_sensitivity_bits.map(f32::from_bits), Some(1.0));
    assert_eq!(s.preset_duration_bits.map(f64::from_bits), Some(10.0));
}

#[test]
fn apply_overrides_only_the_values_other_has() {
    let mut s = Settings::default();
    let mut other = unset();
    other.frame_rate = Some(30);
    other.preset_path = Some(PathBuf::from("/presets"));
    s.apply(&other);
    assert_eq!(s.frame_rate, Some(30));
    assert_eq!(s.preset_path.as_deref(), Some(std::path::Path::new("/presets")));
    assert_eq!(s.texture_path, None);
    assert_eq!(s.beat_sensitivity_bits, Some(DEFAULT_BEAT_SENSITIVITY_BITS));
    assert_eq!(s.preset_duration_bits, Some(DEFAULT_PRESET_DURATION_BITS));
}

#[test]
fn apply_unset_changes_nothing() {
    let mut s = unset();
    s.texture_path = Some(PathBuf::from("/textures"));
    s.frame_rate = Some(24);
    s.apply(&unset());
    assert_eq!(s.texture_path.as_deref(), Some(std::path::Path::new("/textures")));
    assert_eq!(s.frame_rate, Some(24));
    assert_eq!(s.config_path, None);
}

#[test]
fn apply_twice_is_apply_once() {
    let mut other = unset();
    other.config_path = Some(PathBuf::from("a.toml"));
    other.preset_duration_bits = Some(5.0f64.to_bits());
    let mut once = Settings::default();
    once.apply(&other);
    let mut twice = Settings::default();
    twice.apply(&other);
    twice.apply(&other);
    assert_eq!(once.config_path, twice.config_path);
    assert_eq!(once.preset_duration_bits, twice.preset_duration_bits);
    assert_eq!(once.frame_rate, twice.frame_rate);
}

#[test]
fn fill_global_defaults_keeps_values_already_set() {
    let mut s = unset();
    s.frame_rate = Some(144);
    s.fill_global_defaults();
    assert_eq!(s.frame_rate, Some(144));
    assert_eq!(s.beat_sensitivity_bits, Some(DEFAULT_BEAT_SENSITIVITY_BITS));
    assert_eq!(s.preset_duration_bits, Some(DEFAULT_PRESET_DURATION_BITS));
    assert_eq!(s.preset_path, None);
}

#[test]
fn resolve_lets_the_command_line_override_the_file() {
    let mut file = unset();
    file.frame_rate = Some(30);
    file.preset_path = Some(PathBuf::from("/file/presets"));
    file.texture_path = Some(PathBuf::from("/home/user/.local/share/projectm/textures"));
    let mut cli = unset();
    cli.frame_rate = Some(60);
    cli.preset_path = Some(PathBuf::from("/home/user/.local/share/projectm/presets"));
    let s = resolve_settings(Ok(file), &cli).expect("settings resolve");
    assert_eq!(s.frame_rate, Some(60));
    assert_eq!(s.preset_path.as_deref(), Some(std::path::Path::new("/home/user/.local/share/projectm/presets")));
    assert_eq!(s.texture_path.as_deref(), Some(std::path::Path::new("/home/user/.local/share/projectm/textures")));
    assert_eq!(s.beat_sensitivity_bits.map(f32::from_bits), Some(1.0));
    assert_eq!(s.preset_duration_bits.map(f64::from_bits), Some(10.0));
}

#[test]
fn resolve_fills_defaults_when_nothing_is_set() {
    let s = resolve_settings(Ok(unset()), &unset()).expect("settings resolve");
    assert_eq!(s.frame_rate, Some(60));
    assert_eq!(s.beat_sensitivity_bits.map(f32::from_bits), Some(1.0));
    assert_eq!(s.preset_duration_bits.map(f64::from_bits), Some(10.0));
    assert_eq!(s.config_path, None);
}

#[test]
fn resolve_hands_on_a_file_error() {
    let r = resolve_settings(Err("broken file".to_string()), &Settings::default());
    assert_eq!(r.err().as_deref(), Some("broken file"));
}

#[test]
fn no_config_path_uses_defaults() {
    assert!(matches!(settings_file_step(None, false), SettingsFileStep::UseDefaults));
    assert!(matches!(settings_file_step(None, true), SettingsFileStep::UseDefaults));
}

#[test]
fn missing_config_file_uses_defaults() {
    let step = settings_file_step(Some(PathBuf::from("Contents/Resources/config.toml")), false);
    assert!(matches!(step, SettingsFileStep::UseDefaults));
    let step = settings_file_step(Some(PathBuf::from("settings.txt")), false);
    assert!(matches!(step, SettingsFileStep::UseDefaults));
}

#[test]
fn toml_and_json_files_are_loaded() {
    match settings_file_step(Some(PathBuf::from("test-data/config.toml")), true) {
        SettingsFileStep::Load(p) => assert_eq!(p, PathBuf::from("test-data/config.toml")),
        _ => panic!("a toml file is read"),
    }
    match settings_file_step(Some(PathBuf::from("/etc/projectm.json")), true) {
        SettingsFileStep::Load(p) => assert_eq!(p, PathBuf::from("/etc/projectm.json")),
        _ => panic!("a json file is read"),
    }
}

#[test]
fn other_extensions_are_refused_with_the_extension_named() {
    match settings_file_step(Some(PathBuf::from("settings.txt")), true) {
        SettingsFileStep::Reject(msg) => {
            assert_eq!(msg, "invalid config file extension: Some(\"txt\")")
        }
        _ => panic!("a txt file is refused"),
    }
    match settings_file_step(Some(PathBuf::from("dir/settings")), true) {
        SettingsFileStep::Reject(msg) => assert_eq!(msg, "invalid config file extension: None"),
        _ => panic!("a file without extension is refused"),
    }
    match settings_file_step(Some(PathBuf::from("config.TOML")), true) {
        SettingsFileStep::Reject(msg) => {
            assert_eq!(msg, "invalid config file extension: Some(\"TOML\")")
        }
        _ => panic!("the extension is compared exactly"),
    }
}

#[test]
fn decision_on_extension_text() {
    let path = PathBuf::from("settings.ini");
    match settings_file_decision(path.clone(), Some("ini".to_string()), "Some(\"ini\")".to_string()) {
        SettingsFileStep::Reject(msg) => assert_eq!(msg, "invalid config file extension: Some(\"ini\")"),
        _ => panic!("an ini file is refused"),
    }
    match settings_file_decision(path.clone(), Some("yaml)".to_string()), "Some(\"yaml)\")".to_string()) {
        SettingsFileStep::Load(p) => assert_eq!(p, path),
        _ => panic!("the spelling yaml) is accepted"),
    }
    match settings_file_decision(path.clone(), Some("yaml".to_string()), "Some(\"yaml\")".to_string()) {
        SettingsFileStep::Reject(msg) => assert_eq!(msg, "invalid config file extension: Some(\"yaml\")"),
        _ => panic!("the spelling yaml is refused"),
    }
    match settings_file_decision(path, None, "None".to_string()) {
        SettingsFileStep::Reject(msg) => assert_eq!(msg, "invalid config file extension: None"),
        _ => panic!("no extension is refused"),
    }
}

