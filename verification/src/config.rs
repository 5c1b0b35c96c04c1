use vstd::prelude::*;
use crate::adapter::{spec_extract, extract_monitor_index};
use crate::resolve::{ScreenChoice, spec_decode, decode_screen_setting, view_of_opt};

verus! {

#[verifier::external_type_specification]
#[verifier::external_body]
pub struct ExIni(ini::Ini);

/// The value a parsed configuration holds under `key` in `section`, as
/// bytes, if there is one.
pub uninterp spec fn ini_entry(conf: ini::Ini, section: Seq<char>, key: Seq<char>) -> Option<
    Seq<u8>,
>;

/// Relies on ini::Ini::get_from: a pure lookup of the value stored
/// under `key` in `section`, a function of the parsed configuration and
/// the two names alone.
#[verifier::external_body]
fn ini_get<'a>(conf: &'a ini::Ini, section: &str, key: &str) -> (r: Option<&'a [u8]>)
    ensures
        view_of_opt(r) == ini_entry(*conf, section@, key@),
{
    conf.get_from(Some(section), key).map(|s| s.as_bytes())
}

/// The adapter name to parse: the configured one when the key is
/// present, the first-monitor default `(#0)` when it is absent.
pub open spec fn adapter_name_or_default(entry: Option<Seq<u8>>) -> Seq<u8> {
    match entry {
        Some(a) => a,
        None => seq![40u8, 35u8, 48u8, 41u8],
    }
}

/// Reads and decodes the `screenshot.screen` setting of the local
/// configuration. A missing configuration, a missing key, and a
/// malformed value all degrade silently to the default screen 0.
pub fn local_screen_choice(conf: Option<&ini::Ini>) -> (c: ScreenChoice)
    ensures
        conf is None ==> c == ScreenChoice::Explicit(0i32),
        conf matches Some(c0) ==> c == spec_decode(ini_entry(*c0, "screenshot"@, "screen"@)),
{
    match conf {
        None => decode_screen_setting(None),
        Some(c) => decode_screen_setting(ini_get(c, "screenshot", "screen")),
    }
}

/// Reads the `DISPLAY.adapter_name` value of the external display
/// configuration, defaulting to `(#0)` when the key is absent, and
/// extracts the monitor index embedded in it. A missing configuration
/// detects nothing.
pub fn auto_detect_index(conf: Option<&ini::Ini>) -> (r: Option<usize>)
    ensures
        conf is None ==> r is None,
        conf matches Some(c0) ==> r == spec_extract(
            adapter_name_or_default(ini_entry(*c0, "DISPLAY"@, "adapter_name"@)),
        ),
{
    match conf {
        None => None,
        Some(c) => match ini_get(c, "DISPLAY", "adapter_name") {
            Some(s) => extract_monitor_index(s),
            None => {
                let default: Vec<u8> = vec![40u8, 35u8, 48u8, 41u8];
                extract_monitor_index(default.as_slice())
            },
        },
    }
}

} // verus!
