//! Reconstructs typed words from a stream of keyboard events.
//!
//! The core is a state machine: a word buffer plus a shift flag, fed one
//! key event at a time. Key presses resolve to text through a fixed symbol
//! table (with an alphabetic fallback), backspace removes the last letter,
//! and enter commits the word as one JSON line.

pub mod keys;
pub mod laws;
pub mod letter;
pub mod recorder;
pub mod table;
pub mod text;

pub use keys::Key;
pub use keys::KeyEvent;
pub use keys::should_forward_release;
pub use letter::Letter;
pub use recorder::Recorder;
pub use table::symbol_lookup;
