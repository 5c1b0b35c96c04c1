use ini::Ini;
use screen::config::{auto_detect_index, local_screen_choice};
use screen::resolve::ScreenChoice;

#[test]
fn local_choice_reads_setting() {
    let mut conf = Ini::new();
    conf.with_section(Some("screenshot")).set("screen", "3");
    assert_eq!(local_screen_choice(Some(&conf)), ScreenChoice::Explicit(3));
}

#[test]
fn local_choice_sentinel() {
    let mut conf = Ini::new();
    conf.with_section(Some("screenshot")).set("screen", "-1");
    assert_eq!(local_screen_choice(Some(&conf)), ScreenChoice::AutoDetect);
}

#[test]
fn local_choice_missing_key_defaults() {
    let conf = Ini::new();
    assert_eq!(local_screen_choice(Some(&conf)), ScreenChoice::Explicit(0));
}

#[test]
fn local_choice_missing_config_defaults() {
    assert_eq!(local_screen_choice(None), ScreenChoice::Explicit(0));
}

#[test]
fn local_choice_malformed_defaults() {
    let mut conf = Ini::new();
    conf.with_section(Some("screenshot")).set("screen", "zzz");
    assert_eq!(local_screen_choice(Some(&conf)), ScreenChoice::Explicit(0));
}

#[test]
fn detect_reads_adapter_name() {
    let mut conf = Ini::new();
    conf.with_section(Some("DISPLAY")).set("adapter_name", "AMD Radeon RX 5700 XT(#1)");
    assert_eq!(auto_detect_index(Some(&conf)), Some(1));
}

#[test]
fn detect_defaults_to_first_monitor() {
    let conf = Ini::new();
    assert_eq!(auto_detect_index(Some(&conf)), Some(0));
}

#[test]
fn detect_garbage_adapter_name() {
    let mut conf = Ini::new();
    conf.with_section(Some("DISPLAY")).set("adapter_name", "garbage");
    assert_eq!(auto_detect_index(Some(&conf)), None);
}

#[test]
fn detect_missing_config() {
    assert_eq!(auto_detect_index(None), None);
}
