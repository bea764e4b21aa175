//! The library's model of a physical key and of a key transition.

use vstd::prelude::*;

verus! {

/// Identifies a physical key. Letter, digit, punctuation, space and the
/// navigation/control keys each have a variant of their own; any other key
/// is carried as `Other` with its raw name.
pub enum Key {
    A,
    B,
    C,
    D,
    E,
    F,
    G,
    H,
    I,
    J,
    K,
    L,
    M,
    N,
    O,
    P,
    Q,
    R,
    S,
    T,
    U,
    V,
    W,
    X,
    Y,
    Z,
    Key0,
    Key1,
    Key2,
    Key3,
    Key4,
    Key5,
    Key6,
    Key7,
    Key8,
    Key9,
    Minus,
    Equal,
    LeftBracket,
    RightBracket,
    Semicolon,
    Apostrophe,
    BackSlash,
    Comma,
    Dot,
    Slash,
    Space,
    LControl,
    RControl,
    Up,
    Down,
    Left,
    Right,
    LShift,
    RShift,
    Enter,
    Backspace,
    /// Any other key, identified by its raw name.
    Other(String),
}

/// One key transition: a key going down or coming up.
pub enum KeyEvent {
    Pressed(Key),
    Released(Key),
}

/// Whether the key is one of the two shift modifiers.
pub open spec fn is_shift_key(k: Key) -> bool {
    k is LShift || k is RShift
}

/// Whether a key-release event should be forwarded to the recorder:
/// only shift releases matter, every other release is dropped at the
/// source so the queue is not flooded with irrelevant events.
pub fn should_forward_release(key: &Key) -> (b: bool)
    ensures
        b == is_shift_key(*key),
{
    match key {
        Key::LShift | Key::RShift => true,
        _ => false,
    }
}

} // verus!
