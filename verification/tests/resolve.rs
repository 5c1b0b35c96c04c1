use screen::resolve::{
    decode_screen_setting, resolve_from_parts, resolve_screen_id, select_screen, Resolution,
    ScreenChoice,
};

#[test]
fn decode_missing_defaults_to_zero() {
    assert_eq!(decode_screen_setting(None), ScreenChoice::Explicit(0));
}

#[test]
fn decode_sentinel_asks_auto_detect() {
    assert_eq!(decode_screen_setting(Some("-1".as_bytes())), ScreenChoice::AutoDetect);
}

#[test]
fn decode_explicit_index() {
    assert_eq!(decode_screen_setting(Some("3".as_bytes())), ScreenChoice::Explicit(3));
}

#[test]
fn decode_other_negative_kept() {
    assert_eq!(decode_screen_setting(Some("-5".as_bytes())), ScreenChoice::Explicit(-5));
}

#[test]
fn decode_plus_sign_accepted() {
    assert_eq!(decode_screen_setting(Some("+2".as_bytes())), ScreenChoice::Explicit(2));
}

#[test]
fn decode_malformed_defaults_to_zero() {
    assert_eq!(decode_screen_setting(Some("zzz".as_bytes())), ScreenChoice::Explicit(0));
}

#[test]
fn decode_overflow_defaults_to_zero() {
    assert_eq!(decode_screen_setting(Some("99999999999".as_bytes())), ScreenChoice::Explicit(0));
}

#[test]
fn decode_extreme_values_kept() {
    assert_eq!(
        decode_screen_setting(Some("2147483647".as_bytes())),
        ScreenChoice::Explicit(i32::MAX)
    );
    assert_eq!(
        decode_screen_setting(Some("-2147483648".as_bytes())),
        ScreenChoice::Explicit(i32::MIN)
    );
}

#[test]
fn auto_detect_without_external_falls_back() {
    let r = resolve_screen_id(Some("-1".as_bytes()), None);
    assert_eq!(r, Resolution { screen_id: 0, fallback: true });
}

#[test]
fn explicit_ignores_external_state() {
    let with_external = resolve_screen_id(Some("3".as_bytes()), Some("(#9)".as_bytes()));
    assert_eq!(with_external, Resolution { screen_id: 3, fallback: false });
    let without_external = resolve_screen_id(Some("3".as_bytes()), None);
    assert_eq!(without_external, Resolution { screen_id: 3, fallback: false });
}

#[test]
fn missing_setting_defaults_to_zero() {
    assert_eq!(resolve_screen_id(None, None), Resolution { screen_id: 0, fallback: false });
}

#[test]
fn auto_detect_reads_adapter_name() {
    let r = resolve_screen_id(Some("-1".as_bytes()), Some("AMD Radeon RX 5700 XT(#1)".as_bytes()));
    assert_eq!(r, Resolution { screen_id: 1, fallback: false });
}

#[test]
fn auto_detect_garbage_falls_back() {
    let r = resolve_screen_id(Some("-1".as_bytes()), Some("garbage".as_bytes()));
    assert_eq!(r, Resolution { screen_id: 0, fallback: true });
}

#[test]
fn resolved_parts_keep_detected_index() {
    let r = resolve_from_parts(ScreenChoice::AutoDetect, Some(2));
    assert_eq!(r, Resolution { screen_id: 2, fallback: false });
}

#[test]
fn out_of_range_screen_rejected() {
    assert_eq!(select_screen(5, 2), None);
}

#[test]
fn in_range_screen_selected() {
    assert_eq!(select_screen(0, 2), Some(0));
    assert_eq!(select_screen(1, 2), Some(1));
}

#[test]
fn negative_screen_rejected() {
    assert_eq!(select_screen(-1, 2), None);
}

#[test]
fn no_screens_rejects_all() {
    assert_eq!(select_screen(0, 0), None);
}
