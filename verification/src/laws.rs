//! The laws of the word-reconstruction state machine, proved over the
//! spec functions that `Recorder::record` is specified by.

use vstd::prelude::*;

use crate::keys::Key;
use crate::keys::KeyEvent;
use crate::keys::is_shift_key;
use crate::recorder::appends;
use crate::recorder::resolved_text;
use crate::recorder::shift_after;
use crate::recorder::word_after;
use crate::recorder::word_text;

verus! {

/// The shift flag after a whole event sequence.
pub open spec fn shift_after_all(shift: bool, evs: Seq<KeyEvent>) -> bool
    decreases evs.len(),
{
    if evs.len() == 0 {
        shift
    } else {
        shift_after(shift_after_all(shift, evs.drop_last()), evs.last())
    }
}

/// The word after a whole event sequence, each event applied under the
/// shift flag as it stood at that event.
pub open spec fn word_after_all(
    w: Seq<(bool, Seq<char>)>,
    shift: bool,
    evs: Seq<KeyEvent>,
) -> Seq<(bool, Seq<char>)>
    decreases evs.len(),
{
    if evs.len() == 0 {
        w
    } else {
        word_after(
            word_after_all(w, shift, evs.drop_last()),
            shift_after_all(shift, evs.drop_last()),
            evs.last(),
        )
    }
}

/// A plain key press: not enter, not backspace, not a shift key.
pub open spec fn is_plain_press(ev: KeyEvent) -> bool {
    ev matches KeyEvent::Pressed(k) && !(k is Enter) && !(k is Backspace) && !is_shift_key(k)
}

/// The concatenation of the resolved texts of a sequence of presses,
/// each resolved under the given shift context.
pub open spec fn resolved_concat(evs: Seq<KeyEvent>, shift: bool) -> Seq<char>
    decreases evs.len(),
{
    if evs.len() == 0 {
        Seq::empty()
    } else {
        resolved_concat(evs.drop_last(), shift) + match evs.last() {
            KeyEvent::Pressed(k) => resolved_text(k, shift),
            KeyEvent::Released(_) => Seq::empty(),
        }
    }
}

/// For a sequence of plain key presses, the shift flag never moves, and
/// the word's text grows by exactly the concatenation of each key's
/// resolved text under the shift context at its resolution — a filtered
/// key contributes its empty text.
pub proof fn lemma_plain_presses_build_word(
    w: Seq<(bool, Seq<char>)>,
    shift: bool,
    evs: Seq<KeyEvent>,
)
    requires
        forall|i: int| 0 <= i < evs.len() ==> is_plain_press(#[trigger] evs[i]),
    ensures
        shift_after_all(shift, evs) == shift,
        word_text(word_after_all(w, shift, evs)) == word_text(w) + resolved_concat(evs, shift),
    decreases evs.len(),
{
    if evs.len() == 0 {
        assert(word_text(w) + resolved_concat(evs, shift) =~= word_text(w));
    } else {
        let prefix = evs.drop_last();
        let ev = evs.last();
        assert(forall|i: int| 0 <= i < prefix.len() ==> is_plain_press(#[trigger] prefix[i]));
        lemma_plain_presses_build_word(w, shift, prefix);
        let mid = word_after_all(w, shift, prefix);
        match ev {
            KeyEvent::Pressed(k) => {
                if appends(k, shift) {
                    let pushed = mid.push(
                        (crate::recorder::resolved_is_symbol(k, shift), resolved_text(k, shift)),
                    );
                    assert(pushed.drop_last() =~= mid);
                    assert(word_text(pushed) == word_text(mid) + resolved_text(k, shift));
                } else {
                    assert(resolved_text(k, shift).len() == 0);
                    assert(word_text(mid) + resolved_text(k, shift) =~= word_text(mid));
                }
                assert(word_text(w) + resolved_concat(evs, shift) =~= word_text(w)
                    + resolved_concat(prefix, shift) + resolved_text(k, shift));
            },
            KeyEvent::Released(_) => {
                assert(false);
            },
        }
    }
}

/// Two shift releases of the same variant in immediate succession return
/// the shift flag to its original value and leave the word alone.
pub proof fn lemma_double_shift_release(w: Seq<(bool, Seq<char>)>, shift: bool, k: Key)
    requires
        is_shift_key(k),
    ensures
        shift_after(shift_after(shift, KeyEvent::Released(k)), KeyEvent::Released(k)) == shift,
        word_after(
            word_after(w, shift, KeyEvent::Released(k)),
            shift_after(shift, KeyEvent::Released(k)),
            KeyEvent::Released(k),
        ) == w,
{
}

/// Backspace on an empty word leaves the word empty.
pub proof fn lemma_backspace_on_empty(shift: bool)
    ensures
        word_after(Seq::empty(), shift, KeyEvent::Pressed(Key::Backspace)) == Seq::<
            (bool, Seq<char>),
        >::empty(),
{
}

/// Committing always clears the word, whatever it held, and always
/// produces a line — an empty word commits as `{"line":""}`.
pub proof fn lemma_commit_clears(w: Seq<(bool, Seq<char>)>, shift: bool)
    ensures
        word_after(w, shift, KeyEvent::Pressed(Key::Enter)) == Seq::<(bool, Seq<char>)>::empty(),
        crate::recorder::commit_output(w, KeyEvent::Pressed(Key::Enter)) == Some(
            crate::text::json_line(word_text(w)),
        ),
        crate::text::json_line(word_text(Seq::<(bool, Seq<char>)>::empty())) == "{\"line\":\"\"}"@,
{
    reveal_strlit("{\"line\":\"");
    reveal_strlit("\"}");
    reveal_strlit("{\"line\":\"\"}");
    assert(crate::text::json_line(word_text(Seq::<(bool, Seq<char>)>::empty()))
        =~= "{\"line\":\"\"}"@);
}

/// Pressing a shift key is a no-op: it neither toggles the flag nor
/// touches the word; only a shift release toggles.
pub proof fn lemma_shift_press_noop(w: Seq<(bool, Seq<char>)>, shift: bool, k: Key)
    requires
        is_shift_key(k),
    ensures
        shift_after(shift, KeyEvent::Pressed(k)) == shift,
        word_after(w, shift, KeyEvent::Pressed(k)) == w,
        crate::recorder::commit_output(w, KeyEvent::Pressed(k)) is None,
{
}

/// A well-formed word holds no entry for a navigation or control key:
/// every letter that came from the symbol table has non-empty text.
pub open spec fn wf_word(w: Seq<(bool, Seq<char>)>) -> bool {
    forall|i: int| 0 <= i < w.len() ==> (#[trigger] w[i]).0 ==> w[i].1.len() > 0
}

/// Every event preserves the word's well-formedness: the filter keeps
/// empty table entries out, and shift presses never reach the word.
pub proof fn lemma_step_preserves_wf(w: Seq<(bool, Seq<char>)>, shift: bool, ev: KeyEvent)
    requires
        wf_word(w),
    ensures
        wf_word(word_after(w, shift, ev)),
{
    let after = word_after(w, shift, ev);
    assert forall|i: int| 0 <= i < after.len() && (#[trigger] after[i]).0 implies after[i].1.len()
        > 0 by {
        if i < w.len() && after[i] == w[i] {
        }
    }
}

} // verus!
