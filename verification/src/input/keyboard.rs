//! Keys that can be listened for, and the hotkey events they stand for.

use vstd::prelude::*;
use crate::text::{str_eq, str_to_lowercase, unicode_lowercase};

verus! {

/// A key of the keyboard, as far as bindings can name one.
#[derive(Debug, Clone, Copy, PartialEq, Eq, Structural)]
pub enum KeyCode {
    Home,
    End,
    Insert,
    Delete,
    PageUp,
    PageDown,
    /// A function key `F1`..`F12`, by its number.
    Function(u8),
    /// A letter key, by its lower-case letter `a`..`z`.
    Letter(char),
}

/// What a key press means to the automation.
#[derive(Debug, Clone, Copy, PartialEq, Eq, Structural)]
pub enum HotkeyEvent {
    ComboTrigger,
    ShadowFiendQ,
    ShadowFiendW,
    ShadowFiendE,
    LargoQ,
    LargoW,
    LargoE,
    LargoR,
}

/// What the keyboard listener consults on every key press.
pub struct KeyboardListenerConfig {
    /// Name of the key that triggers the stand-alone combo.
    pub trigger_key: String,
    /// Whether the raze keys are intercepted.
    pub sf_enabled: bool,
}

/// The key that a lower-case key name stands for.
pub open spec fn key_named(lower: Seq<char>) -> Option<KeyCode> {
    if lower == "home"@ {
        Some(KeyCode::Home)
    } else if lower == "end"@ {
        Some(KeyCode::End)
    } else if lower == "insert"@ {
        Some(KeyCode::Insert)
    } else if lower == "delete"@ {
        Some(KeyCode::Delete)
    } else if lower == "pageup"@ {
        Some(KeyCode::PageUp)
    } else if lower == "pagedown"@ {
        Some(KeyCode::PageDown)
    } else if lower == "f1"@ {
        Some(KeyCode::Function(1))
    } else if lower == "f2"@ {
        Some(KeyCode::Function(2))
    } else if lower == "f3"@ {
        Some(KeyCode::Function(3))
    } else if lower == "f4"@ {
        Some(KeyCode::Function(4))
    } else if lower == "f5"@ {
        Some(KeyCode::Function(5))
    } else if lower == "f6"@ {
        Some(KeyCode::Function(6))
    } else if lower == "f7"@ {
        Some(KeyCode::Function(7))
    } else if lower == "f8"@ {
        Some(KeyCode::Function(8))
    } else if lower == "f9"@ {
        Some(KeyCode::Function(9))
    } else if lower == "f10"@ {
        Some(KeyCode::Function(10))
    } else if lower == "f11"@ {
        Some(KeyCode::Function(11))
    } else if lower == "f12"@ {
        Some(KeyCode::Function(12))
    } else if lower.len() == 1 && 'a' <= lower[0] && lower[0] <= 'z' {
        Some(KeyCode::Letter(lower[0]))
    } else {
        None
    }
}

/// Resolves a key name that is already in lower case.
pub fn parse_lowercase_key(lower: &str) -> (r: Option<KeyCode>)
    ensures
        r == key_named(lower@),
{
    if str_eq(lower, "home") {
        Some(KeyCode::Home)
    } else if str_eq(lower, "end") {
        Some(KeyCode::End)
    } else if str_eq(lower, "insert") {
        Some(KeyCode::Insert)
    } else if str_eq(lower, "delete") {
        Some(KeyCode::Delete)
    } else if str_eq(lower, "pageup") {
        Some(KeyCode::PageUp)
    } else if str_eq(lower, "pagedown") {
        Some(KeyCode::PageDown)
    } else if str_eq(lower, "f1") {
        Some(KeyCode::Function(1))
    } else if str_eq(lower, "f2") {
        Some(KeyCode::Function(2))
    } else if str_eq(lower, "f3") {
        Some(KeyCode::Function(3))
    } else if str_eq(lower, "f4") {
        Some(KeyCode::Function(4))
    } else if str_eq(lower, "f5") {
        Some(KeyCode::Function(5))
    } else if str_eq(lower, "f6") {
        Some(KeyCode::Function(6))
    } else if str_eq(lower, "f7") {
        Some(KeyCode::Function(7))
    } else if str_eq(lower, "f8") {
        Some(KeyCode::Function(8))
    } else if str_eq(lower, "f9") {
        Some(KeyCode::Function(9))
    } else if str_eq(lower, "f10") {
        Some(KeyCode::Function(10))
    } else if str_eq(lower, "f11") {
        Some(KeyCode::Function(11))
    } else if str_eq(lower, "f12") {
        Some(KeyCode::Function(12))
    } else if lower.unicode_len() == 1 {
        let ch = lower.get_char(0);
        if 'a' <= ch && ch <= 'z' {
            Some(KeyCode::Letter(ch))
        } else {
            None
        }
    } else {
        None
    }
}

/// Resolves a key name, whatever its case: the name is lower-cased and then
/// looked up.
pub fn parse_key(key_str: &str) -> (r: Option<KeyCode>)
    ensures
        r == key_named(unicode_lowercase(key_str@)),
{
    let lower = str_to_lowercase(key_str);
    parse_lowercase_key(lower.as_str())
}

/// The events that a press of `key` raises when the trigger key resolves to
/// `trigger`.
///
/// While raze interception is on, `Q`, `W` and `E` raise the raze event and
/// nothing else. Otherwise `Q`, `W`, `E` and `R` raise the song events, and a
/// press of the trigger key raises the combo trigger after them.
pub open spec fn hotkeys_raised(
    key: KeyCode,
    sf_enabled: bool,
    trigger: Option<KeyCode>,
) -> Seq<HotkeyEvent> {
    if sf_enabled && key == KeyCode::Letter('q') {
        seq![HotkeyEvent::ShadowFiendQ]
    } else if sf_enabled && key == KeyCode::Letter('w') {
        seq![HotkeyEvent::ShadowFiendW]
    } else if sf_enabled && key == KeyCode::Letter('e') {
        seq![HotkeyEvent::ShadowFiendE]
    } else {
        let song = if key == KeyCode::Letter('q') {
            seq![HotkeyEvent::LargoQ]
        } else if key == KeyCode::Letter('w') {
            seq![HotkeyEvent::LargoW]
        } else if key == KeyCode::Letter('e') {
            seq![HotkeyEvent::LargoE]
        } else if key == KeyCode::Letter('r') {
            seq![HotkeyEvent::LargoR]
        } else {
            Seq::empty()
        };
        if trigger == Some(key) {
            song.push(HotkeyEvent::ComboTrigger)
        } else {
            song
        }
    }
}

/// Decides which events a key press raises, given the trigger key already
/// resolved.
pub fn hotkeys_for_press(
    key: KeyCode,
    sf_enabled: bool,
    trigger: Option<KeyCode>,
) -> (r: Vec<HotkeyEvent>)
    ensures
        r@ == hotkeys_raised(key, sf_enabled, trigger),
{
    let mut events: Vec<HotkeyEvent> = Vec::new();
    if sf_enabled && key == KeyCode::Letter('q') {
        events.push(HotkeyEvent::ShadowFiendQ);
        return events;
    }
    if sf_enabled && key == KeyCode::Letter('w') {
        events.push(HotkeyEvent::ShadowFiendW);
        return events;
    }
    if sf_enabled && key == KeyCode::Letter('e') {
        events.push(HotkeyEvent::ShadowFiendE);
        return events;
    }
    if key == KeyCode::Letter('q') {
        events.push(HotkeyEvent::LargoQ);
    } else if key == KeyCode::Letter('w') {
        events.push(HotkeyEvent::LargoW);
    } else if key == KeyCode::Letter('e') {
        events.push(HotkeyEvent::LargoE);
    } else if key == KeyCode::Letter('r') {
        events.push(HotkeyEvent::LargoR);
    }
    match trigger {
        Some(t) => {
            if key == t {
                events.push(HotkeyEvent::ComboTrigger);
            }
        },
        None => {},
    }
    events
}

/// Decides which events a key press raises under the listener's current
/// configuration.
pub fn on_key_press(key: KeyCode, config: &KeyboardListenerConfig) -> (r: Vec<HotkeyEvent>)
    ensures
        r@ == hotkeys_raised(
            key,
            config.sf_enabled,
            key_named(unicode_lowercase(config.trigger_key@)),
        ),
{
    let trigger = parse_key(config.trigger_key.as_str());
    hotkeys_for_press(key, config.sf_enabled, trigger)
}

} // verus!
