//! Key identities and the fixed key-to-character table.
//!
//! A `Key` names one key on the keyboard out of the fixed set the console
//! cares about; every other key is `Other`. The table maps the character
//! keys to the character they type; control keys and unmapped keys produce
//! no character.

use vstd::prelude::*;

verus! {

/// Identity of a key, drawn from the fixed set the console recognizes.
#[derive(Clone, Copy, PartialEq, Eq, Structural, Debug)]
pub enum Key {
    KeyA,
    KeyB,
    KeyC,
    KeyD,
    KeyE,
    KeyF,
    KeyG,
    KeyH,
    KeyI,
    KeyJ,
    KeyK,
    KeyL,
    KeyM,
    KeyN,
    KeyO,
    KeyP,
    KeyQ,
    KeyR,
    KeyS,
    KeyT,
    KeyU,
    KeyV,
    KeyW,
    KeyX,
    KeyY,
    KeyZ,
    Digit0,
    Digit1,
    Digit2,
    Digit3,
    Digit4,
    Digit5,
    Digit6,
    Digit7,
    Digit8,
    Digit9,
    Space,
    Period,
    /// The erase control key; maps to no character.
    Backspace,
    /// The submit control key; maps to no character.
    Enter,
    /// Any key outside the recognized set; maps to no character.
    Other,
}

/// A transient key event: a key identity plus whether this event is a press
/// (`pressed == true`) or a release.
#[derive(Clone, Copy, PartialEq, Eq, Structural, Debug)]
pub struct KeyEvent {
    pub key: Key,
    pub pressed: bool,
}

/// The fixed key-to-character table: lowercase letters, digits, space and
/// period; every other key produces no character.
pub open spec fn key_char(k: Key) -> Option<char> {
    match k {
        Key::KeyA => Some('a'),
        Key::KeyB => Some('b'),
        Key::KeyC => Some('c'),
        Key::KeyD => Some('d'),
        Key::KeyE => Some('e'),
        Key::KeyF => Some('f'),
        Key::KeyG => Some('g'),
        Key::KeyH => Some('h'),
        Key::KeyI => Some('i'),
        Key::KeyJ => Some('j'),
        Key::KeyK => Some('k'),
        Key::KeyL => Some('l'),
        Key::KeyM => Some('m'),
        Key::KeyN => Some('n'),
        Key::KeyO => Some('o'),
        Key::KeyP => Some('p'),
        Key::KeyQ => Some('q'),
        Key::KeyR => Some('r'),
        Key::KeyS => Some('s'),
        Key::KeyT => Some('t'),
        Key::KeyU => Some('u'),
        Key::KeyV => Some('v'),
        Key::KeyW => Some('w'),
        Key::KeyX => Some('x'),
        Key::KeyY => Some('y'),
        Key::KeyZ => Some('z'),
        Key::Digit0 => Some('0'),
        Key::Digit1 => Some('1'),
        Key::Digit2 => Some('2'),
        Key::Digit3 => Some('3'),
        Key::Digit4 => Some('4'),
        Key::Digit5 => Some('5'),
        Key::Digit6 => Some('6'),
        Key::Digit7 => Some('7'),
        Key::Digit8 => Some('8'),
        Key::Digit9 => Some('9'),
        Key::Space => Some(' '),
        Key::Period => Some('.'),
        Key::Backspace => None,
        Key::Enter => None,
        Key::Other => None,
    }
}

/// Maps a key identity to the character it types, if any.
pub fn keycode_to_char(key_code: Key) -> (r: Option<char>)
    ensures
        r == key_char(key_code),
{
    match key_code {
        Key::KeyA => Some('a'),
        Key::KeyB => Some('b'),
        Key::KeyC => Some('c'),
        Key::KeyD => Some('d'),
        Key::KeyE => Some('e'),
        Key::KeyF => Some('f'),
        Key::KeyG => Some('g'),
        Key::KeyH => Some('h'),
        Key::KeyI => Some('i'),
        Key::KeyJ => Some('j'),
        Key::KeyK => Some('k'),
        Key::KeyL => Some('l'),
        Key::KeyM => Some('m'),
        Key::KeyN => Some('n'),
        Key::KeyO => Some('o'),
        Key::KeyP => Some('p'),
        Key::KeyQ => Some('q'),
        Key::KeyR => Some('r'),
        Key::KeyS => Some('s'),
        Key::KeyT => Some('t'),
        Key::KeyU => Some('u'),
        Key::KeyV => Some('v'),
        Key::KeyW => Some('w'),
        Key::KeyX => Some('x'),
        Key::KeyY => Some('y'),
        Key::KeyZ => Some('z'),
        Key::Digit0 => Some('0'),
        Key::Digit1 => Some('1'),
        Key::Digit2 => Some('2'),
        Key::Digit3 => Some('3'),
        Key::Digit4 => Some('4'),
        Key::Digit5 => Some('5'),
        Key::Digit6 => Some('6'),
        Key::Digit7 => Some('7'),
        Key::Digit8 => Some('8'),
        Key::Digit9 => Some('9'),
        Key::Space => Some(' '),
        Key::Period => Some('.'),
        Key::Backspace => None,
        Key::Enter => None,
        Key::Other => None,
    }
}

/// A character the buffer accepts: alphanumeric, whitespace, or a period.
/// Only characters out of the key table ever reach this test, so the
/// alphanumeric and whitespace classes are read over ASCII.
pub open spec fn insertable(c: char) -> bool {
    ('a' <= c && c <= 'z') || ('A' <= c && c <= 'Z') || ('0' <= c && c <= '9') || c == ' '
        || c == '.'
}

/// Decides whether a character may enter the line buffer.
pub fn is_insertable(c: char) -> (b: bool)
    ensures
        b == insertable(c),
{
    ('a' <= c && c <= 'z') || ('A' <= c && c <= 'Z') || ('0' <= c && c <= '9') || c == ' '
        || c == '.'
}

/// Every character the key table produces is accepted by the buffer.
pub proof fn lemma_key_char_insertable(k: Key)
    ensures
        key_char(k) matches Some(c) ==> insertable(c),
{
}

} // verus!
