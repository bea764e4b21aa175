//! The key symbol table: a fixed mapping from a key identifier and the
//! shift context to the literal text the key produces.
//!
//! Digits, punctuation and space map to their unshifted or shifted symbol;
//! navigation and control keys map to empty text (no visible character).
//! Letter keys and unknown keys have no entry: they are resolved through
//! the alphabetic fallback (the key's name, cased by the shift context).

use vstd::prelude::*;

use crate::keys::Key;

verus! {

/// The table itself: the literal text for a key under a shift context, or
/// `None` when the key has no entry (the alphabetic fallback applies).
pub open spec fn symbol_text(k: Key, shift: bool) -> Option<Seq<char>> {
    match k {
        Key::Minus => Some(if shift { "_"@ } else { "-"@ }),
        Key::Equal => Some(if shift { "+"@ } else { "="@ }),
        Key::LeftBracket => Some(if shift { "{"@ } else { "["@ }),
        Key::RightBracket => Some(if shift { "}"@ } else { "]"@ }),
        Key::Semicolon => Some(if shift { ":"@ } else { ";"@ }),
        Key::Apostrophe => Some(if shift { "\""@ } else { "'"@ }),
        Key::BackSlash => Some(if shift { "|"@ } else { "\\"@ }),
        Key::Comma => Some(if shift { "<"@ } else { ","@ }),
        Key::Dot => Some(if shift { ">"@ } else { "."@ }),
        Key::Slash => Some(if shift { "?"@ } else { "/"@ }),
        Key::Space => Some(" "@),
        Key::Key0 => Some(if shift { ")"@ } else { "0"@ }),
        Key::Key1 => Some(if shift { "!"@ } else { "1"@ }),
        Key::Key2 => Some(if shift { "@"@ } else { "2"@ }),
        Key::Key3 => Some(if shift { "#"@ } else { "3"@ }),
        Key::Key4 => Some(if shift { "$"@ } else { "4"@ }),
        Key::Key5 => Some(if shift { "%"@ } else { "5"@ }),
        Key::Key6 => Some(if shift { "^"@ } else { "6"@ }),
        Key::Key7 => Some(if shift { "&"@ } else { "7"@ }),
        Key::Key8 => Some(if shift { "*"@ } else { "8"@ }),
        Key::Key9 => Some(if shift { "("@ } else { "9"@ }),
        Key::LControl => Some(""@),
        Key::RControl => Some(""@),
        Key::Up => Some(""@),
        Key::Down => Some(""@),
        Key::Left => Some(""@),
        Key::Right => Some(""@),
        _ => None,
    }
}

/// Looks a key up in the symbol table under the given shift context.
pub fn symbol_lookup(key: &Key, shift: bool) -> (r: Option<&'static str>)
    ensures
        match r {
            Some(s) => symbol_text(*key, shift) == Some(s@),
            None => symbol_text(*key, shift) is None,
        },
{
    match key {
        Key::Minus => Some(if shift { "_" } else { "-" }),
        Key::Equal => Some(if shift { "+" } else { "=" }),
        Key::LeftBracket => Some(if shift { "{" } else { "[" }),
        Key::RightBracket => Some(if shift { "}" } else { "]" }),
        Key::Semicolon => Some(if shift { ":" } else { ";" }),
        Key::Apostrophe => Some(if shift { "\"" } else { "'" }),
        Key::BackSlash => Some(if shift { "|" } else { "\\" }),
        Key::Comma => Some(if shift { "<" } else { "," }),
        Key::Dot => Some(if shift { ">" } else { "." }),
        Key::Slash => Some(if shift { "?" } else { "/" }),
        Key::Space => Some(" "),
        Key::Key0 => Some(if shift { ")" } else { "0" }),
        Key::Key1 => Some(if shift { "!" } else { "1" }),
        Key::Key2 => Some(if shift { "@" } else { "2" }),
        Key::Key3 => Some(if shift { "#" } else { "3" }),
        Key::Key4 => Some(if shift { "$" } else { "4" }),
        Key::Key5 => Some(if shift { "%" } else { "5" }),
        Key::Key6 => Some(if shift { "^" } else { "6" }),
        Key::Key7 => Some(if shift { "&" } else { "7" }),
        Key::Key8 => Some(if shift { "*" } else { "8" }),
        Key::Key9 => Some(if shift { "(" } else { "9" }),
        Key::LControl => Some(""),
        Key::RControl => Some(""),
        Key::Up => Some(""),
        Key::Down => Some(""),
        Key::Left => Some(""),
        Key::Right => Some(""),
        _ => None,
    }
}

/// The name of a key: the fallback text for keys with no table entry,
/// cased by the shift context at resolution time.
pub open spec fn key_name(k: Key) -> Seq<char> {
    match k {
        Key::A => "A"@,
        Key::B => "B"@,
        Key::C => "C"@,
        Key::D => "D"@,
        Key::E => "E"@,
        Key::F => "F"@,
        Key::G => "G"@,
        Key::H => "H"@,
        Key::I => "I"@,
        Key::J => "J"@,
        Key::K => "K"@,
        Key::L => "L"@,
        Key::M => "M"@,
        Key::N => "N"@,
        Key::O => "O"@,
        Key::P => "P"@,
        Key::Q => "Q"@,
        Key::R => "R"@,
        Key::S => "S"@,
        Key::T => "T"@,
        Key::U => "U"@,
        Key::V => "V"@,
        Key::W => "W"@,
        Key::X => "X"@,
        Key::Y => "Y"@,
        Key::Z => "Z"@,
        Key::Key0 => "Key0"@,
        Key::Key1 => "Key1"@,
        Key::Key2 => "Key2"@,
        Key::Key3 => "Key3"@,
        Key::Key4 => "Key4"@,
        Key::Key5 => "Key5"@,
        Key::Key6 => "Key6"@,
        Key::Key7 => "Key7"@,
        Key::Key8 => "Key8"@,
        Key::Key9 => "Key9"@,
        Key::Minus => "Minus"@,
        Key::Equal => "Equal"@,
        Key::LeftBracket => "LeftBracket"@,
        Key::RightBracket => "RightBracket"@,
        Key::Semicolon => "Semicolon"@,
        Key::Apostrophe => "Apostrophe"@,
        Key::BackSlash => "BackSlash"@,
        Key::Comma => "Comma"@,
        Key::Dot => "Dot"@,
        Key::Slash => "Slash"@,
        Key::Space => "Space"@,
        Key::LControl => "LControl"@,
        Key::RControl => "RControl"@,
        Key::Up => "Up"@,
        Key::Down => "Down"@,
        Key::Left => "Left"@,
        Key::Right => "Right"@,
        Key::LShift => "LShift"@,
        Key::RShift => "RShift"@,
        Key::Enter => "Enter"@,
        Key::Backspace => "Backspace"@,
        Key::Other(s) => s@,
    }
}

/// Hands out the key's name, for the alphabetic fallback.
pub fn key_name_of(key: &Key) -> (r: &str)
    ensures
        r@ == key_name(*key),
{
    match key {
        Key::A => "A",
        Key::B => "B",
        Key::C => "C",
        Key::D => "D",
        Key::E => "E",
        Key::F => "F",
        Key::G => "G",
        Key::H => "H",
        Key::I => "I",
        Key::J => "J",
        Key::K => "K",
        Key::L => "L",
        Key::M => "M",
        Key::N => "N",
        Key::O => "O",
        Key::P => "P",
        Key::Q => "Q",
        Key::R => "R",
        Key::S => "S",
        Key::T => "T",
        Key::U => "U",
        Key::V => "V",
        Key::W => "W",
        Key::X => "X",
        Key::Y => "Y",
        Key::Z => "Z",
        Key::Key0 => "Key0",
        Key::Key1 => "Key1",
        Key::Key2 => "Key2",
        Key::Key3 => "Key3",
        Key::Key4 => "Key4",
        Key::Key5 => "Key5",
        Key::Key6 => "Key6",
        Key::Key7 => "Key7",
        Key::Key8 => "Key8",
        Key::Key9 => "Key9",
        Key::Minus => "Minus",
        Key::Equal => "Equal",
        Key::LeftBracket => "LeftBracket",
        Key::RightBracket => "RightBracket",
        Key::Semicolon => "Semicolon",
        Key::Apostrophe => "Apostrophe",
        Key::BackSlash => "BackSlash",
        Key::Comma => "Comma",
        Key::Dot => "Dot",
        Key::Slash => "Slash",
        Key::Space => "Space",
        Key::LControl => "LControl",
        Key::RControl => "RControl",
        Key::Up => "Up",
        Key::Down => "Down",
        Key::Left => "Left",
        Key::Right => "Right",
        Key::LShift => "LShift",
        Key::RShift => "RShift",
        Key::Enter => "Enter",
        Key::Backspace => "Backspace",
        Key::Other(s) => s.as_str(),
    }
}

} // verus!
