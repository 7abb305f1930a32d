//! Keyboard trigger logic: which key presses are triggers.

use vstd::prelude::*;
use crate::text::owned;
use crate::types::TriggerEvent;

verus! {

/// A key, as far as the keyboard trigger tells keys apart.
#[derive(Debug, Clone, Copy, PartialEq, Eq, Structural)]
pub enum KeyInput {
    Char(char),
    Enter,
    Tab,
    Other,
}

/// Whether a key event triggers: only presses do, of the character `trigger_key`, of
/// Enter when the trigger key is a newline, or of Tab when it is a tab.
pub open spec fn spec_key_triggers(key: KeyInput, is_press: bool, trigger_key: char) -> bool {
    is_press && match key {
        KeyInput::Char(c) => c == trigger_key,
        KeyInput::Enter => trigger_key == '\n',
        KeyInput::Tab => trigger_key == '\t',
        KeyInput::Other => false,
    }
}

/// Whether a key event triggers.
pub fn key_triggers(key: KeyInput, is_press: bool, trigger_key: char) -> (r: bool)
    ensures
        r == spec_key_triggers(key, is_press, trigger_key),
{
    if !is_press {
        return false;
    }
    match key {
        KeyInput::Char(c) => c == trigger_key,
        KeyInput::Enter => trigger_key == '\n',
        KeyInput::Tab => trigger_key == '\t',
        KeyInput::Other => false,
    }
}

/// The trigger event of a key press at `timestamp_ns`.
pub fn keyboard_trigger_event(timestamp_ns: u64) -> (r: TriggerEvent)
    ensures
        r.timestamp_ns == timestamp_ns,
        r.source@ == "keyboard"@,
{
    TriggerEvent { timestamp_ns, source: owned("keyboard") }
}

} // verus!
