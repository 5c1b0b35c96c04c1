use vstd::prelude::*;
use crate::adapter::{spec_extract, extract_monitor_index};
use crate::digits::{spec_parse_i32, parse_i32};

verus! {

/// The decoded local screen setting: either an explicit screen index, or
/// the request to auto-detect the monitor from the external display
/// configuration.
#[derive(Clone, Copy, Debug, PartialEq, Eq, Structural)]
pub enum ScreenChoice {
    Explicit(i32),
    AutoDetect,
}

/// A resolved screen identifier. `fallback` records that auto-detection
/// was requested but failed, so the default screen was chosen and one
/// diagnostic is owed to the user.
#[derive(Clone, Copy, Debug, PartialEq, Eq, Structural)]
pub struct Resolution {
    pub screen_id: i32,
    pub fallback: bool,
}

/// The view of an optional byte string.
pub open spec fn view_of_opt(raw: Option<&[u8]>) -> Option<Seq<u8>> {
    match raw {
        Some(s) => Some(s@),
        None => None,
    }
}

/// What decoding the raw `screenshot.screen` setting yields: the default
/// screen 0 when the setting is missing or not an integer, auto-detect
/// when it is -1, and the explicit index otherwise.
pub open spec fn spec_decode(raw: Option<Seq<u8>>) -> ScreenChoice {
    match raw {
        None => ScreenChoice::Explicit(0),
        Some(s) => match spec_parse_i32(s) {
            None => ScreenChoice::Explicit(0),
            Some(v) => if v == -1 {
                ScreenChoice::AutoDetect
            } else {
                ScreenChoice::Explicit(v)
            },
        },
    }
}

/// What resolving a decoded choice against a detected monitor index
/// yields: an explicit index is returned as it stands, untouched by any
/// detection; a successful detection that fits a screen identifier is
/// returned; a failed or oversized detection falls back to screen 0 and
/// owes a diagnostic.
pub open spec fn spec_resolve(choice: ScreenChoice, detected: Option<usize>) -> Resolution {
    match choice {
        ScreenChoice::Explicit(i) => Resolution { screen_id: i, fallback: false },
        ScreenChoice::AutoDetect => match detected {
            Some(v) => if v <= 2147483647 {
                Resolution { screen_id: v as i32, fallback: false }
            } else {
                Resolution { screen_id: 0, fallback: true }
            },
            None => Resolution { screen_id: 0, fallback: true },
        },
    }
}

/// What the whole resolver yields from the raw local setting and the raw
/// adapter name of the external display configuration, both optional.
pub open spec fn spec_resolve_screen_id(raw: Option<Seq<u8>>, adapter: Option<Seq<u8>>) -> Resolution {
    spec_resolve(
        spec_decode(raw),
        match adapter {
            Some(a) => spec_extract(a),
            None => None,
        },
    )
}

/// Decodes the raw `screenshot.screen` setting. A missing or malformed
/// setting degrades silently to the default screen 0; the sentinel -1
/// asks for auto-detection; any other integer is an explicit index.
pub fn decode_screen_setting(raw: Option<&[u8]>) -> (c: ScreenChoice)
    ensures
        c == spec_decode(view_of_opt(raw)),
{
    match raw {
        None => ScreenChoice::Explicit(0),
        Some(s) => match parse_i32(s) {
            None => ScreenChoice::Explicit(0),
            Some(v) => if v == -1 {
                ScreenChoice::AutoDetect
            } else {
                ScreenChoice::Explicit(v)
            },
        },
    }
}

/// Resolves a decoded choice against the outcome of auto-detection. An
/// explicit choice is returned unchanged whatever was detected; a failed
/// detection falls back to screen 0, with `fallback` set so that the
/// caller emits exactly one diagnostic.
pub fn resolve_from_parts(choice: ScreenChoice, detected: Option<usize>) -> (r: Resolution)
    ensures
        r == spec_resolve(choice, detected),
{
    match choice {
        ScreenChoice::Explicit(i) => Resolution { screen_id: i, fallback: false },
        ScreenChoice::AutoDetect => match detected {
            Some(v) => if v <= 2147483647 {
                Resolution { screen_id: v as i32, fallback: false }
            } else {
                Resolution { screen_id: 0, fallback: true }
            },
            None => Resolution { screen_id: 0, fallback: true },
        },
    }
}

/// The full resolver over plain values: decodes the local setting and,
/// when it asks for auto-detection, extracts the monitor index from the
/// adapter name; every failure along the way falls back to screen 0.
pub fn resolve_screen_id(raw_setting: Option<&[u8]>, adapter_name: Option<&[u8]>) -> (r: Resolution)
    ensures
        r == spec_resolve_screen_id(view_of_opt(raw_setting), view_of_opt(adapter_name)),
{
    let choice = decode_screen_setting(raw_setting);
    match choice {
        ScreenChoice::AutoDetect => {
            let detected = match adapter_name {
                Some(a) => extract_monitor_index(a),
                None => None,
            };
            resolve_from_parts(choice, detected)
        },
        ScreenChoice::Explicit(_) => resolve_from_parts(choice, None),
    }
}

/// An explicitly configured screen index is resolved to itself, with no
/// fallback, whatever the external configuration holds.
pub proof fn lemma_explicit_setting_unconditional(
    raw: Option<Seq<u8>>,
    adapter: Option<Seq<u8>>,
    i: i32,
)
    requires
        spec_decode(raw) == ScreenChoice::Explicit(i),
    ensures
        spec_resolve_screen_id(raw, adapter) == (Resolution { screen_id: i, fallback: false }),
{
}

/// When auto-detection is asked for and no external configuration is
/// reachable, the resolver falls back to screen 0 and owes exactly one
/// diagnostic.
pub proof fn lemma_auto_detect_without_external(raw: Option<Seq<u8>>)
    requires
        spec_decode(raw) == ScreenChoice::AutoDetect,
    ensures
        spec_resolve_screen_id(raw, None) == (Resolution { screen_id: 0, fallback: true }),
{
}

/// With no local configuration at all, the resolver yields the default
/// screen 0 silently, whatever the external configuration holds.
pub proof fn lemma_missing_local_config_defaults(adapter: Option<Seq<u8>>)
    ensures
        spec_resolve_screen_id(None, adapter) == (Resolution { screen_id: 0, fallback: false }),
{
}

/// Validates a resolved screen identifier against the number of screens
/// the system enumerated: the index back when it names one of them,
/// nothing when it is negative or too large.
pub fn select_screen(screen_id: i32, screen_count: usize) -> (r: Option<usize>)
    ensures
        r == (if 0 <= screen_id && screen_id < screen_count {
            Some(screen_id as usize)
        } else {
            None::<usize>
        }),
{
    if screen_id >= 0 && (screen_id as usize) < screen_count {
        Some(screen_id as usize)
    } else {
        None
    }
}

} // verus!
