//! The screen on which a pair is typed.

use vstd::prelude::*;
use crate::app::{App, EditingSection, ScreenCode};
use crate::keys::KeyCode;
use crate::model::EditBuffer;
use crate::screens::screen_trait::Screen;
use crate::store::listing_written;

verus! {

/// The editing screen: the key and the value typed so far, and the box that
/// has the focus. Without a focus nothing is being edited and typing has no
/// effect.
pub struct EditingScreen {
    pub key_input: String,
    pub value_input: String,
    pub current_editing_section: Option<EditingSection>,
}

impl View for EditingScreen {
    type V = EditBuffer;

    open spec fn view(&self) -> EditBuffer {
        EditBuffer {
            key_input: self.key_input@,
            value_input: self.value_input@,
            focus: self.current_editing_section,
        }
    }
}

impl EditingScreen {
    /// An editing screen with empty boxes and no focus.
    pub fn new() -> (screen: EditingScreen)
        ensures
            screen@ == EditBuffer::empty(),
    {
        EditingScreen {
            key_input: String::new(),
            value_input: String::new(),
            current_editing_section: None,
        }
    }

    /// Moves the focus on: without a focus it goes to the key box, from the
    /// key box to the value box, and from the value box back to the key box.
    /// The texts are left alone.
    pub fn toggle_editing(&mut self)
        ensures
            final(self)@ == old(self)@.toggled(),
            final(self).key_input == old(self).key_input,
            final(self).value_input == old(self).value_input,
    {
        match self.current_editing_section {
            None => {
                self.current_editing_section = Some(EditingSection::Key);
            },
            Some(EditingSection::Key) => {
                self.current_editing_section = Some(EditingSection::Value);
            },
            Some(EditingSection::Value) => {
                self.current_editing_section = Some(EditingSection::Key);
            },
        }
    }

    /// Empties both boxes and drops the focus.
    pub fn reset(&mut self)
        ensures
            final(self)@ == EditBuffer::empty(),
    {
        self.key_input = String::new();
        self.value_input = String::new();
        self.current_editing_section = None;
    }

    /// Writes the pending pair into the store of `app`, whatever the focus,
    /// and resets the screen. Nothing else in `app` changes.
    pub fn save(&mut self, app: &mut App)
        ensures
            final(self)@ == EditBuffer::empty(),
            final(app).pairs@ == old(app).pairs@.insert(old(self)@.key_input, old(self)@.value_input),
            final(app).pairs.listing() == listing_written(
                old(app).pairs.listing(),
                old(self)@.key_input,
                old(self)@.value_input,
            ),
            final(app).current_screen_code == old(app).current_screen_code,
            final(app).screens == old(app).screens,
            final(app).should_exit == old(app).should_exit,
            final(app).should_print == old(app).should_print,
    {
        app.pairs.insert(self.key_input.clone(), self.value_input.clone());
        self.reset();
    }
}

impl Screen for EditingScreen {
    /// `Tab` moves the focus on. A character goes to the end of the text that
    /// has the focus, and `Backspace` takes the last character of that text
    /// away. `Enter` in the key box moves the focus to the value box; `Enter`
    /// in the value box writes the pair into the store, resets the screen and
    /// goes back to the main screen. `Esc` resets the screen and goes back to
    /// the main screen without writing. Without a focus, characters,
    /// `Backspace` and `Enter` do nothing.
    fn handle_key_event(&mut self, app: &mut App, key_code: KeyCode)
        ensures
            final(self)@ == old(self)@.after_key(key_code),
            old(self)@.commits_on(key_code) ==> final(app).pairs@ == old(app).pairs@.insert(
                old(self)@.key_input,
                old(self)@.value_input,
            ) && final(app).pairs.listing() == listing_written(
                old(app).pairs.listing(),
                old(self)@.key_input,
                old(self)@.value_input,
            ),
            !old(self)@.commits_on(key_code) ==> final(app).pairs == old(app).pairs,
            final(app).current_screen_code == if old(self)@.leaves_on(key_code) {
                ScreenCode::Main
            } else {
                old(app).current_screen_code
            },
            final(app).should_exit == old(app).should_exit,
            final(app).should_print == old(app).should_print,
    {
        match key_code {
            KeyCode::Enter => {
                match self.current_editing_section {
                    Some(EditingSection::Key) => {
                        self.current_editing_section = Some(EditingSection::Value);
                    },
                    Some(EditingSection::Value) => {
                        self.save(app);
                        app.switch_screen(ScreenCode::Main);
                    },
                    None => {},
                }
            },
            KeyCode::Backspace => {
                match self.current_editing_section {
                    Some(EditingSection::Key) => {
                        self.key_input.pop();
                    },
                    Some(EditingSection::Value) => {
                        self.value_input.pop();
                    },
                    None => {},
                }
            },
            KeyCode::Esc => {
                self.reset();
                app.switch_screen(ScreenCode::Main);
            },
            KeyCode::Tab => {
                self.toggle_editing();
            },
            KeyCode::Char(input_char) => {
                match self.current_editing_section {
                    Some(EditingSection::Key) => {
                        self.key_input.push(input_char);
                    },
                    Some(EditingSection::Value) => {
                        self.value_input.push(input_char);
                    },
                    None => {},
                }
            },
            KeyCode::Other => {},
        }
    }
}

} // verus!
