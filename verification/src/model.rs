//! The editor as a state machine over plain mathematical values.
//!
//! [`AppState`] is what the editor is at one moment; [`AppState::after_key`]
//! says what one key press makes of it. The executable code in the other
//! modules is proved to follow these definitions, and the laws of the editor
//! are proved from them.

use vstd::prelude::*;
use crate::app::{EditingSection, LoopAction, ScreenCode};
use crate::keys::{InputEvent, KeyCode, KeyEventKind};

verus! {

/// The focus after `Tab`: the key box first, then to and fro between the two
/// boxes.
pub open spec fn next_focus(focus: Option<EditingSection>) -> Option<EditingSection> {
    match focus {
        None => Some(EditingSection::Key),
        Some(EditingSection::Key) => Some(EditingSection::Value),
        Some(EditingSection::Value) => Some(EditingSection::Key),
    }
}

/// The screen that the main screen hands over to on `key`, if any.
pub open spec fn main_target(key: KeyCode) -> Option<ScreenCode> {
    match key {
        KeyCode::Char(c) => if c == 'e' || c == 'E' {
            Some(ScreenCode::Editing)
        } else if c == 'q' || c == 'Q' {
            Some(ScreenCode::Exiting)
        } else {
            None
        },
        _ => None,
    }
}

/// An answer to the exit prompt.
#[derive(Clone, Copy, Debug, PartialEq, Eq, Structural)]
pub enum ExitAnswer {
    /// `y`: leave and print the store.
    Yes,
    /// `n` or `q`: leave.
    No,
}

impl ExitAnswer {
    /// Whether the store is printed after this answer. As the editor stands,
    /// it is printed after either answer.
    pub open spec fn prints(self) -> bool {
        true
    }
}

/// The answer that `key` gives to the exit prompt, if it gives one.
pub open spec fn exit_answer(key: KeyCode) -> Option<ExitAnswer> {
    match key {
        KeyCode::Char(c) => if c == 'y' {
            Some(ExitAnswer::Yes)
        } else if c == 'n' || c == 'q' {
            Some(ExitAnswer::No)
        } else {
            None
        },
        _ => None,
    }
}

/// The pending pair of the editing screen: the two texts typed so far and the
/// box that has the focus. Without a focus nothing is being edited.
pub struct EditBuffer {
    pub key_input: Seq<char>,
    pub value_input: Seq<char>,
    pub focus: Option<EditingSection>,
}

impl EditBuffer {
    /// Both texts empty and no focus: the state between two edit sessions.
    pub open spec fn empty() -> EditBuffer {
        EditBuffer { key_input: Seq::empty(), value_input: Seq::empty(), focus: None }
    }

    /// The buffer after `Tab`.
    pub open spec fn toggled(self) -> EditBuffer {
        EditBuffer { focus: next_focus(self.focus), ..self }
    }

    /// The buffer after the character `c` was typed: `c` goes to the end of
    /// the text that has the focus.
    pub open spec fn typed(self, c: char) -> EditBuffer {
        match self.focus {
            Some(EditingSection::Key) => EditBuffer { key_input: self.key_input.push(c), ..self },
            Some(EditingSection::Value) => EditBuffer {
                value_input: self.value_input.push(c),
                ..self
            },
            None => self,
        }
    }

    /// The buffer after `Backspace`: the text that has the focus loses its
    /// last character, if it has one.
    pub open spec fn erased(self) -> EditBuffer {
        match self.focus {
            Some(EditingSection::Key) => if self.key_input.len() > 0 {
                EditBuffer { key_input: self.key_input.drop_last(), ..self }
            } else {
                self
            },
            Some(EditingSection::Value) => if self.value_input.len() > 0 {
                EditBuffer { value_input: self.value_input.drop_last(), ..self }
            } else {
                self
            },
            None => self,
        }
    }

    /// True if `key` writes the pending pair into the store: `Enter` with the
    /// focus on the value box.
    pub open spec fn commits_on(self, key: KeyCode) -> bool {
        key == KeyCode::Enter && self.focus == Some(EditingSection::Value)
    }

    /// True if `key` ends the edit session: a commit, or `Esc`.
    pub open spec fn leaves_on(self, key: KeyCode) -> bool {
        key == KeyCode::Esc || self.commits_on(key)
    }

    /// The buffer after `key`.
    pub open spec fn after_key(self, key: KeyCode) -> EditBuffer {
        match key {
            KeyCode::Tab => self.toggled(),
            KeyCode::Char(c) => self.typed(c),
            KeyCode::Backspace => self.erased(),
            KeyCode::Esc => EditBuffer::empty(),
            KeyCode::Enter => match self.focus {
                Some(EditingSection::Key) => EditBuffer {
                    focus: Some(EditingSection::Value),
                    ..self
                },
                Some(EditingSection::Value) => EditBuffer::empty(),
                None => self,
            },
            KeyCode::Other => self,
        }
    }
}

/// The whole state of the editor.
pub struct AppState {
    /// The store.
    pub pairs: Map<Seq<char>, Seq<char>>,
    /// The active screen.
    pub current_screen_code: ScreenCode,
    /// Set when the main loop is to end.
    pub should_exit: bool,
    /// Set when the store is to be printed on the way out.
    pub should_print: bool,
    /// The pending pair of the editing screen.
    pub edit: EditBuffer,
}

impl AppState {
    /// The state of a freshly started editor.
    pub open spec fn initial() -> AppState {
        AppState {
            pairs: Map::empty(),
            current_screen_code: ScreenCode::Main,
            should_exit: false,
            should_print: false,
            edit: EditBuffer::empty(),
        }
    }

    /// True if `key` writes the pending pair into the store.
    pub open spec fn commits_on(self, key: KeyCode) -> bool {
        self.current_screen_code == ScreenCode::Editing && self.edit.commits_on(key)
    }

    /// The state after a press of `key`, which goes to the active screen and
    /// to no other.
    pub open spec fn after_key(self, key: KeyCode) -> AppState {
        match self.current_screen_code {
            ScreenCode::Main => match main_target(key) {
                Some(target) => AppState { current_screen_code: target, ..self },
                None => self,
            },
            ScreenCode::Editing => AppState {
                pairs: if self.edit.commits_on(key) {
                    self.pairs.insert(self.edit.key_input, self.edit.value_input)
                } else {
                    self.pairs
                },
                current_screen_code: if self.edit.leaves_on(key) {
                    ScreenCode::Main
                } else {
                    ScreenCode::Editing
                },
                edit: self.edit.after_key(key),
                ..self
            },
            ScreenCode::Exiting => match exit_answer(key) {
                Some(answer) => AppState {
                    should_exit: true,
                    should_print: answer.prints(),
                    ..self
                },
                None => self,
            },
        }
    }

    /// The state after the presses of `keys`, one after the other.
    pub open spec fn after_keys(self, keys: Seq<KeyCode>) -> AppState
        decreases keys.len(),
    {
        if keys.len() == 0 {
            self
        } else {
            self.after_keys(keys.drop_last()).after_key(keys.last())
        }
    }

    /// The pairs that the presses of `keys` write into the store, in the
    /// order in which they are written.
    pub open spec fn commits(self, keys: Seq<KeyCode>) -> Seq<(Seq<char>, Seq<char>)>
        decreases keys.len(),
    {
        if keys.len() == 0 {
            Seq::empty()
        } else {
            let before = self.after_keys(keys.drop_last());
            let earlier = self.commits(keys.drop_last());
            if before.commits_on(keys.last()) {
                earlier.push((before.edit.key_input, before.edit.value_input))
            } else {
                earlier
            }
        }
    }

    /// The state after one event of the terminal: only a key press reaches
    /// the active screen.
    pub open spec fn after_event(self, event: InputEvent) -> AppState {
        match event {
            InputEvent::Key(key) => if key.kind == KeyEventKind::Press {
                self.after_key(key.code)
            } else {
                self
            },
            InputEvent::Other => self,
        }
    }

    /// What the main loop does after `event`: a key event that is no press is
    /// passed over; otherwise the loop ends if the exit flag is set after the
    /// event, and draws if it is not.
    pub open spec fn action_on(self, event: InputEvent) -> LoopAction {
        let after = self.after_event(event);
        match event {
            InputEvent::Key(key) if key.kind != KeyEventKind::Press => LoopAction::Wait,
            _ => if after.should_exit {
                LoopAction::Exit(after.should_print)
            } else {
                LoopAction::Render
            },
        }
    }
}

/// `count` presses of `key`.
pub open spec fn repeated(key: KeyCode, count: nat) -> Seq<KeyCode> {
    Seq::new(count, |i: int| key)
}

} // verus!
