//! The application controller.
//!
//! The controller owns the store, the identity of the active screen, the
//! registry of screens and the exit flags. A key press goes to the active
//! screen and to no other: the screen is taken out of the registry, handles
//! the key with the whole controller in its hands, and is put back.

use vstd::prelude::*;
use crate::json::{json_object_text, to_json, SerializationError};
use crate::keys::{InputEvent, KeyCode, KeyEventKind};
use crate::model::AppState;
use crate::screens::registry::{AnyScreen, ScreenRegistry};
use crate::screens::screen_trait::Screen;
use crate::store::{listing_written, KeyValueStore};

verus! {

/// The identity of a screen. Exactly one is active at any time.
#[derive(Clone, Copy, Debug, PartialEq, Eq, Hash, Structural)]
pub enum ScreenCode {
    Main,
    Editing,
    Exiting,
}

impl ScreenCode {
    /// The name of the screen as text.
    pub open spec fn name_text(self) -> Seq<char> {
        match self {
            ScreenCode::Main => "Main"@,
            ScreenCode::Editing => "Editing"@,
            ScreenCode::Exiting => "Exiting"@,
        }
    }

    /// The name of the screen, for the header of the editing screen.
    pub fn name(&self) -> (name: &'static str)
        ensures
            name@ == self.name_text(),
    {
        match self {
            ScreenCode::Main => "Main",
            ScreenCode::Editing => "Editing",
            ScreenCode::Exiting => "Exiting",
        }
    }
}

/// An input box of the editing screen.
#[derive(Clone, Copy, Debug, PartialEq, Eq, Structural)]
pub enum EditingSection {
    Key,
    Value,
}

/// What the main loop does after an event.
#[derive(Clone, Copy, Debug, PartialEq, Eq, Structural)]
pub enum LoopAction {
    /// Nothing to show: wait for the next event.
    Wait,
    /// Draw the active screen, then wait for the next event.
    Render,
    /// Leave the loop; the flag says whether the store is to be printed.
    Exit(bool),
}

/// The editor.
pub struct App {
    pub pairs: KeyValueStore,
    pub current_screen_code: ScreenCode,
    pub screens: ScreenRegistry,
    pub should_exit: bool,
    pub should_print: bool,
}

impl View for App {
    type V = AppState;

    open spec fn view(&self) -> AppState {
        AppState {
            pairs: self.pairs@,
            current_screen_code: self.current_screen_code,
            should_exit: self.should_exit,
            should_print: self.should_print,
            edit: self.screens.edit_buffer(),
        }
    }
}

impl App {
    /// Every screen is in its slot. This holds between any two events.
    pub open spec fn wf(&self) -> bool {
        self.screens.complete()
    }

    /// A fresh editor: an empty store, the main screen active, every screen
    /// in its slot, and no exit flag set.
    pub fn new() -> (app: App)
        ensures
            app.wf(),
            app@ == AppState::initial(),
            app.pairs.listing() == Seq::<(Seq<char>, Seq<char>)>::empty(),
    {
        App {
            pairs: KeyValueStore::new(),
            current_screen_code: ScreenCode::Main,
            screens: ScreenRegistry::new(),
            should_exit: false,
            should_print: false,
        }
    }

    /// The listing of the store after a press of `key_code`: a commit writes
    /// the pending pair, and nothing else touches the listing.
    pub open spec fn listing_after_key(&self, key_code: KeyCode) -> Seq<(Seq<char>, Seq<char>)> {
        if self@.commits_on(key_code) {
            listing_written(self.pairs.listing(), self@.edit.key_input, self@.edit.value_input)
        } else {
            self.pairs.listing()
        }
    }

    /// The listing of the store after `event`: only a key press can change
    /// it.
    pub open spec fn listing_after_event(&self, event: InputEvent) -> Seq<(Seq<char>, Seq<char>)> {
        match event {
            InputEvent::Key(key) => if key.kind == KeyEventKind::Press {
                self.listing_after_key(key.code)
            } else {
                self.pairs.listing()
            },
            InputEvent::Other => self.pairs.listing(),
        }
    }

    /// Makes `screen_code` the active screen. Nothing else changes.
    pub fn switch_screen(&mut self, screen_code: ScreenCode)
        ensures
            *final(self) == (App { current_screen_code: screen_code, ..*old(self) }),
    {
        self.current_screen_code = screen_code;
    }

    /// Hands one key press to the active screen.
    ///
    /// The screen is taken out of its slot, handles the key, and is put back
    /// into the slot that it came from, whichever screen is active afterwards.
    /// A handler cannot fail, so no slot is ever left empty. With a screen
    /// missing from the registry the editor cannot go on: a caller then has
    /// to stop.
    pub fn dispatch(&mut self, key_code: KeyCode)
        requires
            old(self).wf(),
        ensures
            final(self).wf(),
            final(self)@ == old(self)@.after_key(key_code),
            final(self).pairs.listing() == old(self).listing_after_key(key_code),
    {
        let code = self.current_screen_code;
        match self.screens.remove(code) {
            Some(AnyScreen::Main(mut screen)) => {
                screen.handle_key_event(self, key_code);
                self.screens.insert(AnyScreen::Main(screen));
            },
            Some(AnyScreen::Editing(mut screen)) => {
                screen.handle_key_event(self, key_code);
                self.screens.insert(AnyScreen::Editing(screen));
            },
            Some(AnyScreen::Exiting(mut screen)) => {
                screen.handle_key_event(self, key_code);
                self.screens.insert(AnyScreen::Exiting(screen));
            },
            None => {
                // Every slot is filled, so there is no way to get here.
                assert(false);
            },
        }
    }

    /// The store as the text of one JSON object, for printing on the way
    /// out. The outcome is what the encoder makes of the mapping that the
    /// store holds: its text where it writes one, and an error where it
    /// fails. The store is left as it is either way.
    pub fn serialize_to_json(&self) -> (outcome: Result<String, SerializationError>)
        ensures
            match outcome {
                Ok(text) => json_object_text(self.pairs@) == Some(text@),
                Err(_) => json_object_text(self.pairs@) is None,
            },
    {
        to_json(&self.pairs)
    }

    /// One turn of the main loop: takes an event and says what the loop does
    /// next.
    ///
    /// Only a key press reaches the active screen. A key event that is no
    /// press is passed over. After any other event the loop ends if the exit
    /// flag is set, and draws if it is not.
    pub fn handle_event(&mut self, event: InputEvent) -> (action: LoopAction)
        requires
            old(self).wf(),
        ensures
            final(self).wf(),
            final(self)@ == old(self)@.after_event(event),
            final(self).pairs.listing() == old(self).listing_after_event(event),
            action == old(self)@.action_on(event),
    {
        match event {
            InputEvent::Key(key) => {
                if !key.is_press() {
                    return LoopAction::Wait;
                }
                self.dispatch(key.code);
            },
            InputEvent::Other => {},
        }
        if self.should_exit {
            LoopAction::Exit(self.should_print)
        } else {
            LoopAction::Render
        }
    }
}

} // verus!
