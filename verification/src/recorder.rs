//! The word buffer: the in-progress word, the shift flag, and the single
//! entry point that consumes one key event.
//!
//! The whole behaviour is stated by three spec functions over the
//! recorder's model — `shift_after`, `word_after` and `commit_output` —
//! which say, for any state and any event, what the next state is and
//! what line, if any, the event commits.

use vstd::prelude::*;

use crate::keys::Key;
use crate::keys::KeyEvent;
use crate::keys::is_shift_key;
use crate::letter::Letter;
use crate::table::key_name_of;
use crate::table::key_name;
use crate::table::symbol_lookup;
use crate::table::symbol_text;
use crate::text::json_line;
use crate::text::json_line_of;
use crate::text::lower_text;
use crate::text::to_lower;
use crate::text::to_upper;
use crate::text::upper_text;

verus! {

/// The model of one letter of the word: whether it came from the symbol
/// table, and its text.
pub open spec fn letter_model(l: Letter) -> (bool, Seq<char>) {
    (l.is_symbol(), l.text())
}

/// What resolving a key under a shift context gives: the table entry when
/// there is one, else the key's name cased by the shift context.
pub open spec fn resolved_text(k: Key, shift: bool) -> Seq<char> {
    match symbol_text(k, shift) {
        Some(t) => t,
        None => if shift {
            upper_text(key_name(k))
        } else {
            lower_text(key_name(k))
        },
    }
}

/// Whether resolving the key goes through the symbol table.
pub open spec fn resolved_is_symbol(k: Key, shift: bool) -> bool {
    symbol_text(k, shift) is Some
}

/// Whether the event toggles the shift flag: only a shift key release
/// does; a shift key press is a no-op.
pub open spec fn toggles_shift(ev: KeyEvent) -> bool {
    ev matches KeyEvent::Released(k) && is_shift_key(k)
}

/// The shift flag after one event.
pub open spec fn shift_after(shift: bool, ev: KeyEvent) -> bool {
    if toggles_shift(ev) {
        !shift
    } else {
        shift
    }
}

/// Whether pressing the key appends a letter to the word: every key whose
/// resolution falls to the alphabetic fallback does, and a table key only
/// when its entry is non-empty (navigation and control keys resolve to
/// empty text and are filtered out).
pub open spec fn appends(k: Key, shift: bool) -> bool {
    match symbol_text(k, shift) {
        Some(t) => t.len() > 0,
        None => true,
    }
}

/// The word after one event: enter clears it, backspace drops the last
/// letter if there is one, a shift key leaves it alone, and any other
/// press appends its resolved letter when the filter lets it through.
/// Releases of non-shift keys change nothing.
pub open spec fn word_after(w: Seq<(bool, Seq<char>)>, shift: bool, ev: KeyEvent) -> Seq<
    (bool, Seq<char>),
> {
    match ev {
        KeyEvent::Pressed(k) => if k is Enter {
            Seq::empty()
        } else if k is Backspace {
            if w.len() == 0 {
                w
            } else {
                w.drop_last()
            }
        } else if is_shift_key(k) {
            w
        } else if appends(k, shift) {
            w.push((resolved_is_symbol(k, shift), resolved_text(k, shift)))
        } else {
            w
        },
        KeyEvent::Released(_) => w,
    }
}

/// The line an event commits: pressing enter commits the word as one JSON
/// line; no other event commits anything.
pub open spec fn commit_output(w: Seq<(bool, Seq<char>)>, ev: KeyEvent) -> Option<Seq<char>> {
    if ev matches KeyEvent::Pressed(Key::Enter) {
        Some(json_line(word_text(w)))
    } else {
        None
    }
}

/// The word's text: the concatenation of its letters' texts.
pub open spec fn word_text(w: Seq<(bool, Seq<char>)>) -> Seq<char>
    decreases w.len(),
{
    if w.len() == 0 {
        Seq::empty()
    } else {
        word_text(w.drop_last()) + w.last().1
    }
}

/// The word buffer: the in-progress word and the shift flag. The output
/// sink is not here: `record` hands each committed line back to the
/// caller, who owns the sink.
pub struct Recorder {
    word: Vec<Letter>,
    shift: bool,
}

impl Recorder {
    /// The model of the in-progress word.
    pub closed spec fn word_view(&self) -> Seq<(bool, Seq<char>)> {
        self.word@.map_values(|l: Letter| letter_model(l))
    }

    /// The shift flag.
    pub closed spec fn shift(&self) -> bool {
        self.shift
    }

    /// A fresh recorder: empty word, shift inactive.
    pub fn new() -> (r: Recorder)
        ensures
            r.word_view() == Seq::<(bool, Seq<char>)>::empty(),
            r.shift() == false,
    {
        let r = Recorder { word: Vec::new(), shift: false };
        proof {
            assert(r.word_view() =~= Seq::<(bool, Seq<char>)>::empty());
        }
        r
    }

    /// Consumes one key event: toggles shift on a shift release, commits
    /// on enter (returning the JSON line for the caller to write), drops
    /// the last letter on backspace, and otherwise resolves and appends.
    pub fn record(&mut self, event: &KeyEvent) -> (out: Option<String>)
        ensures
            final(self).shift() == shift_after(old(self).shift(), *event),
            final(self).word_view() == word_after(
                old(self).word_view(),
                old(self).shift(),
                *event,
            ),
            match out {
                Some(line) => commit_output(old(self).word_view(), *event) == Some(line@),
                None => commit_output(old(self).word_view(), *event) is None,
            },
    {
        match event {
            KeyEvent::Released(key) => {
                match key {
                    Key::LShift | Key::RShift => self.toggle_shift(),
                    _ => (),
                }
                None
            },
            KeyEvent::Pressed(key) => {
                match key {
                    Key::Enter => Some(self.commit()),
                    Key::Backspace => {
                        self.pop();
                        None
                    },
                    Key::LShift | Key::RShift => None,
                    _ => {
                        let letter = self.parse_key(key);
                        let keep = match &letter {
                            Letter::Symbol(s) => !s.as_str().is_empty(),
                            Letter::Alphabet(_) => true,
                        };
                        if keep {
                            self.push(letter);
                        }
                        None
                    },
                }
            },
        }
    }

    /// Flips the shift flag. The single consumer discipline serializes
    /// every call, so a plain flip is race-free here.
    fn toggle_shift(&mut self)
        ensures
            final(self).shift() == !old(self).shift(),
            final(self).word_view() == old(self).word_view(),
    {
        self.shift = !self.shift;
    }

    /// Resolves one key under the current shift context: the symbol table
    /// entry when there is one, else the key's name, cased by the shift
    /// context.
    pub fn parse_key(&self, key: &Key) -> (l: Letter)
        ensures
            letter_model(l) == (resolved_is_symbol(*key, self.shift()), resolved_text(
                *key,
                self.shift(),
            )),
    {
        match symbol_lookup(key, self.shift) {
            Some(s) => Letter::Symbol(s.to_owned()),
            None => {
                let name = key_name_of(key);
                if self.shift {
                    Letter::Alphabet(to_upper(name))
                } else {
                    Letter::Alphabet(to_lower(name))
                }
            },
        }
    }

    /// The word's text so far, letters concatenated.
    pub fn word_to_string(&self) -> (r: String)
        ensures
            r@ == word_text(self.word_view()),
    {
        let mut r = String::new();
        let mut i: usize = 0;
        while i < self.word.len()
            invariant
                i <= self.word.len(),
                r@ == word_text(self.word_view().take(i as int)),
            decreases self.word.len() - i,
        {
            r.append(self.word[i].inner().as_str());
            proof {
                assert(self.word_view().take(i + 1).drop_last() =~= self.word_view().take(i as int));
                assert(self.word_view()[i as int] == letter_model(self.word@[i as int]));
            }
            i += 1;
        }
        proof {
            assert(self.word_view().take(self.word@.len() as int) =~= self.word_view());
        }
        r
    }

    /// Commits the word: builds its JSON line and clears the buffer.
    fn commit(&mut self) -> (line: String)
        ensures
            final(self).word_view() == Seq::<(bool, Seq<char>)>::empty(),
            final(self).shift() == old(self).shift(),
            line@ == json_line(word_text(old(self).word_view())),
    {
        let text = self.word_to_string();
        let line = json_line_of(text.as_str());
        self.clear();
        line
    }

    /// Drops the last letter; an empty word stays empty.
    fn pop(&mut self)
        ensures
            final(self).shift() == old(self).shift(),
            final(self).word_view() == if old(self).word_view().len() == 0 {
                old(self).word_view()
            } else {
                old(self).word_view().drop_last()
            },
    {
        if self.word.len() > 0 {
            self.word.pop();
            proof {
                assert(self.word_view() =~= old(self).word_view().drop_last());
            }
        }
    }

    /// Appends one letter.
    fn push(&mut self, letter: Letter)
        ensures
            final(self).shift() == old(self).shift(),
            final(self).word_view() == old(self).word_view().push(letter_model(letter)),
    {
        self.word.push(letter);
        proof {
            assert(self.word_view() =~= old(self).word_view().push(letter_model(letter)));
        }
    }

    /// Empties the word.
    fn clear(&mut self)
        ensures
            final(self).shift() == old(self).shift(),
            final(self).word_view() == Seq::<(bool, Seq<char>)>::empty(),
    {
        self.word.clear();
        proof {
            assert(self.word_view() =~= Seq::<(bool, Seq<char>)>::empty());
        }
    }
}

} // verus!
