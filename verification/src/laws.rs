//! Laws of the editor, proved from the definitions of the state machine.

use vstd::prelude::*;
use crate::app::{EditingSection, ScreenCode};
use crate::keys::KeyCode;
use crate::model::{next_focus, repeated, AppState, EditBuffer};
use crate::store::{
    is_last_write, keys_of, lemma_written_keys, lemma_written_last, lemma_written_others, written,
};

verus! {

/// The buffer after `text` was typed into it: the text that has the focus
/// grows by `text`, and without a focus nothing changes.
pub open spec fn typed_text(buffer: EditBuffer, text: Seq<char>) -> EditBuffer {
    match buffer.focus {
        Some(EditingSection::Key) => EditBuffer { key_input: buffer.key_input + text, ..buffer },
        Some(EditingSection::Value) => EditBuffer {
            value_input: buffer.value_input + text,
            ..buffer
        },
        None => buffer,
    }
}

/// Every key of `keys` is a character key.
pub open spec fn all_chars(keys: Seq<KeyCode>) -> bool {
    forall|i: int| 0 <= i < keys.len() ==> (#[trigger] keys[i]) is Char
}

/// The characters of the character keys of `keys`, in their order.
pub open spec fn chars_of(keys: Seq<KeyCode>) -> Seq<char>
    decreases keys.len(),
{
    if keys.len() == 0 {
        Seq::empty()
    } else {
        match keys.last() {
            KeyCode::Char(c) => chars_of(keys.drop_last()).push(c),
            _ => chars_of(keys.drop_last()),
        }
    }
}

/// The focus after `count` presses of `Tab`: an odd number of presses does
/// what one press does, and an even number what two presses do.
pub open spec fn tabbed(focus: Option<EditingSection>, count: nat) -> Option<EditingSection> {
    if count == 0 {
        focus
    } else if count % 2 == 1 {
        next_focus(focus)
    } else {
        next_focus(next_focus(focus))
    }
}

/// True if the editing screen is active before the presses of `keys`, after
/// them, and between any two of them.
pub open spec fn stays_editing(state: AppState, keys: Seq<KeyCode>) -> bool {
    forall|i: int|
        0 <= i <= keys.len() ==> (#[trigger] state.after_keys(keys.take(i))).current_screen_code
            == ScreenCode::Editing
}

/// Typing on the editing screen appends: after a sequence of character keys
/// the text that has the focus is what it was, followed by the characters of
/// the keys in their order. Nothing else changes, and without a focus nothing
/// changes at all.
pub proof fn law_typing_appends(state: AppState, keys: Seq<KeyCode>)
    requires
        state.current_screen_code == ScreenCode::Editing,
        all_chars(keys),
    ensures
        state.after_keys(keys) == (AppState {
            edit: typed_text(state.edit, chars_of(keys)),
            ..state
        }),
        chars_of(keys).len() == keys.len(),
        forall|i: int| 0 <= i < keys.len() ==> keys[i] == KeyCode::Char(#[trigger] chars_of(keys)[i]),
    decreases keys.len(),
{
    let text = chars_of(keys);
    if keys.len() == 0 {
        assert(state.edit.key_input + text =~= state.edit.key_input);
        assert(state.edit.value_input + text =~= state.edit.value_input);
    } else {
        let front = keys.drop_last();
        assert(all_chars(front)) by {
            assert forall|i: int| 0 <= i < front.len() implies (#[trigger] front[i]) is Char by {
                assert(keys[i] is Char);
            }
        }
        assert(keys[keys.len() - 1] is Char);
        law_typing_appends(state, front);
        let c = keys.last()->Char_0;
        assert(text == chars_of(front).push(c));
        assert((state.edit.key_input + chars_of(front)).push(c) =~= state.edit.key_input + text);
        assert((state.edit.value_input + chars_of(front)).push(c) =~= state.edit.value_input
            + text);
        assert forall|i: int| 0 <= i < keys.len() implies keys[i] == KeyCode::Char(
            #[trigger] chars_of(keys)[i],
        ) by {
            if i < front.len() {
                assert(front[i] == keys[i]);
                assert(chars_of(front)[i] == chars_of(keys)[i]);
            }
        }
    }
}

/// `Backspace` takes away exactly the last character: typing a character
/// into a box and pressing `Backspace` leaves the editor as it was.
pub proof fn law_backspace_undoes_typing(state: AppState, c: char)
    requires
        state.current_screen_code == ScreenCode::Editing,
    ensures
        state.after_key(KeyCode::Char(c)).after_key(KeyCode::Backspace) == state,
{
    assert(state.edit.key_input.push(c).drop_last() =~= state.edit.key_input);
    assert(state.edit.value_input.push(c).drop_last() =~= state.edit.value_input);
}

/// `Backspace` on an empty box changes nothing.
pub proof fn law_backspace_on_empty(state: AppState)
    requires
        state.current_screen_code == ScreenCode::Editing,
        match state.edit.focus {
            Some(EditingSection::Key) => state.edit.key_input.len() == 0,
            Some(EditingSection::Value) => state.edit.value_input.len() == 0,
            None => true,
        },
    ensures
        state.after_key(KeyCode::Backspace) == state,
{
}

/// `Tab` cycles: without a focus the first press puts the focus on the key
/// box, and from then on the focus changes box with every press and is never
/// lost again. The texts, the store, the active screen and the flags are left
/// alone.
pub proof fn law_tab_cycles(state: AppState, count: nat)
    requires
        state.current_screen_code == ScreenCode::Editing,
    ensures
        state.after_keys(repeated(KeyCode::Tab, count)) == (AppState {
            edit: EditBuffer { focus: tabbed(state.edit.focus, count), ..state.edit },
            ..state
        }),
        count > 0 ==> tabbed(state.edit.focus, count) is Some,
        count > 0 && state.edit.focus is None ==> tabbed(state.edit.focus, count) == if count % 2
            == 1 {
            Some(EditingSection::Key)
        } else {
            Some(EditingSection::Value)
        },
        count > 0 ==> tabbed(state.edit.focus, count + 1) != tabbed(state.edit.focus, count),
    decreases count,
{
    if count > 0 {
        let fewer = (count - 1) as nat;
        law_tab_cycles(state, fewer);
        assert(repeated(KeyCode::Tab, count).drop_last() =~= repeated(KeyCode::Tab, fewer));
    }
}

/// A commit is a write into the store: the key of the pending pair gets its
/// value, whatever the store held for that key before, and every other key
/// keeps its value. The store grows by one entry if the key is new and keeps
/// its size if it is not.
pub proof fn law_commit_writes(state: AppState)
    requires
        state.commits_on(KeyCode::Enter),
        state.pairs.dom().finite(),
    ensures
        state.after_key(KeyCode::Enter).pairs == state.pairs.insert(
            state.edit.key_input,
            state.edit.value_input,
        ),
        state.after_key(KeyCode::Enter).pairs[state.edit.key_input] == state.edit.value_input,
        state.after_key(KeyCode::Enter).pairs.len() == if state.pairs.contains_key(
            state.edit.key_input,
        ) {
            state.pairs.len()
        } else {
            state.pairs.len() + 1
        },
        state.after_key(KeyCode::Enter).current_screen_code == ScreenCode::Main,
        state.after_key(KeyCode::Enter).edit == EditBuffer::empty(),
{
}

/// The store after any sequence of keys is the store before it with the
/// committed pairs written into it in the order of their commits.
pub proof fn law_store_is_commits_written(state: AppState, keys: Seq<KeyCode>)
    ensures
        state.after_keys(keys).pairs == written(state.pairs, state.commits(keys)),
    decreases keys.len(),
{
    if keys.len() > 0 {
        let front = keys.drop_last();
        law_store_is_commits_written(state, front);
        let before = state.after_keys(front);
        if before.commits_on(keys.last()) {
            let pair = (before.edit.key_input, before.edit.value_input);
            assert(state.commits(keys).drop_last() =~= state.commits(front));
            assert(state.commits(keys).last() == pair);
        }
    }
}

/// The last write wins: after any sequence of keys the store holds, for a key
/// that was committed, the value of the last commit of that key.
pub proof fn law_last_write_wins(state: AppState, keys: Seq<KeyCode>, at: int)
    requires
        is_last_write(state.commits(keys), at),
    ensures
        state.after_keys(keys).pairs.contains_key(state.commits(keys)[at].0),
        state.after_keys(keys).pairs[state.commits(keys)[at].0] == state.commits(keys)[at].1,
{
    law_store_is_commits_written(state, keys);
    lemma_written_last(state.pairs, state.commits(keys), at);
}

/// A key that was not committed has the value, if any, that it had before.
pub proof fn law_uncommitted_keys_keep(state: AppState, keys: Seq<KeyCode>, key: Seq<char>)
    requires
        !keys_of(state.commits(keys)).contains(key),
    ensures
        state.after_keys(keys).pairs.contains_key(key) == state.pairs.contains_key(key),
        state.after_keys(keys).pairs[key] == state.pairs[key],
{
    law_store_is_commits_written(state, keys);
    lemma_written_others(state.pairs, state.commits(keys), key);
}

/// The store never holds more entries than distinct keys were committed: the
/// keys of a store that started empty are exactly the committed keys, and any
/// store has the keys that it had and the committed keys.
pub proof fn law_store_size(state: AppState, keys: Seq<KeyCode>)
    ensures
        state.after_keys(keys).pairs.dom() == state.pairs.dom().union(
            keys_of(state.commits(keys)),
        ),
        AppState::initial().after_keys(keys).pairs.dom() == keys_of(
            AppState::initial().commits(keys),
        ),
        AppState::initial().after_keys(keys).pairs.len() == keys_of(
            AppState::initial().commits(keys),
        ).len(),
{
    law_store_is_commits_written(state, keys);
    lemma_written_keys(state.pairs, state.commits(keys));
    let fresh = AppState::initial();
    law_store_is_commits_written(fresh, keys);
    lemma_written_keys(fresh.pairs, fresh.commits(keys));
    assert(fresh.pairs.dom().union(keys_of(fresh.commits(keys))) =~= keys_of(
        fresh.commits(keys),
    ));
}

/// While the editing screen stays active, the store and the exit flags stay
/// as they are.
pub proof fn lemma_session_keeps_store(state: AppState, keys: Seq<KeyCode>)
    requires
        stays_editing(state, keys),
    ensures
        state.after_keys(keys).current_screen_code == ScreenCode::Editing,
        state.after_keys(keys).pairs == state.pairs,
        state.after_keys(keys).should_exit == state.should_exit,
        state.after_keys(keys).should_print == state.should_print,
    decreases keys.len(),
{
    assert(keys.take(keys.len() as int) =~= keys);
    assert(state.after_keys(keys.take(keys.len() as int)).current_screen_code
        == ScreenCode::Editing);
    if keys.len() > 0 {
        let front = keys.drop_last();
        assert(stays_editing(state, front)) by {
            assert forall|i: int| 0 <= i <= front.len() implies (#[trigger] state.after_keys(
                front.take(i),
            )).current_screen_code == ScreenCode::Editing by {
                assert(front.take(i) =~= keys.take(i));
            }
        }
        lemma_session_keeps_store(state, front);
    }
}

/// `Esc` discards: whatever was typed in an edit session, `Esc` ends the
/// session with the store as it was when the session began, both boxes empty,
/// no focus, and the main screen active.
pub proof fn law_escape_discards(state: AppState, keys: Seq<KeyCode>)
    requires
        stays_editing(state, keys),
    ensures
        state.after_keys(keys).after_key(KeyCode::Esc) == (AppState {
            current_screen_code: ScreenCode::Main,
            edit: EditBuffer::empty(),
            ..state
        }),
{
    lemma_session_keeps_store(state, keys);
}

} // verus!
