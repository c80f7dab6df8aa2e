//! The registry: one slot for each screen.

use vstd::prelude::*;
use crate::app::ScreenCode;
use crate::model::EditBuffer;
use crate::screens::editing_screen::EditingScreen;
use crate::screens::exiting_screen::ExitingScreen;
use crate::screens::main_screen::MainScreen;

verus! {

/// A screen of any of the three kinds, as it travels between the registry and
/// the dispatcher.
pub enum AnyScreen {
    Main(MainScreen),
    Editing(EditingScreen),
    Exiting(ExitingScreen),
}

impl AnyScreen {
    /// The identity of the screen.
    pub open spec fn screen_code(&self) -> ScreenCode {
        match self {
            AnyScreen::Main(_) => ScreenCode::Main,
            AnyScreen::Editing(_) => ScreenCode::Editing,
            AnyScreen::Exiting(_) => ScreenCode::Exiting,
        }
    }

    /// The identity of the screen.
    #[verifier::when_used_as_spec(screen_code)]
    pub fn code(&self) -> (code: ScreenCode)
        ensures
            code == self.screen_code(),
    {
        match self {
            AnyScreen::Main(_) => ScreenCode::Main,
            AnyScreen::Editing(_) => ScreenCode::Editing,
            AnyScreen::Exiting(_) => ScreenCode::Exiting,
        }
    }
}

/// The screens of the editor, one slot for each identity.
///
/// A slot is empty only while its screen handles a key. Each slot can hold
/// the screen of its own identity and no other, so a screen that is put back
/// always lands where it was taken from.
pub struct ScreenRegistry {
    pub main: Option<MainScreen>,
    pub editing: Option<EditingScreen>,
    pub exiting: Option<ExitingScreen>,
}

impl ScreenRegistry {
    /// What the slot of `code` holds.
    pub open spec fn slot(&self, code: ScreenCode) -> Option<AnyScreen> {
        match code {
            ScreenCode::Main => match self.main {
                Some(screen) => Some(AnyScreen::Main(screen)),
                None => None,
            },
            ScreenCode::Editing => match self.editing {
                Some(screen) => Some(AnyScreen::Editing(screen)),
                None => None,
            },
            ScreenCode::Exiting => match self.exiting {
                Some(screen) => Some(AnyScreen::Exiting(screen)),
                None => None,
            },
        }
    }

    /// The registry with the slot of `code` emptied.
    pub open spec fn without(self, code: ScreenCode) -> ScreenRegistry {
        match code {
            ScreenCode::Main => ScreenRegistry { main: None, ..self },
            ScreenCode::Editing => ScreenRegistry { editing: None, ..self },
            ScreenCode::Exiting => ScreenRegistry { exiting: None, ..self },
        }
    }

    /// The registry with `screen` in the slot of its own identity.
    pub open spec fn with(self, screen: AnyScreen) -> ScreenRegistry {
        match screen {
            AnyScreen::Main(screen) => ScreenRegistry { main: Some(screen), ..self },
            AnyScreen::Editing(screen) => ScreenRegistry { editing: Some(screen), ..self },
            AnyScreen::Exiting(screen) => ScreenRegistry { exiting: Some(screen), ..self },
        }
    }

    /// Every slot is filled.
    pub open spec fn complete(&self) -> bool {
        self.main is Some && self.editing is Some && self.exiting is Some
    }

    /// The pending pair of the editing screen. While that screen is detached
    /// this is the empty buffer.
    pub open spec fn edit_buffer(&self) -> EditBuffer {
        match self.editing {
            Some(screen) => screen@,
            None => EditBuffer::empty(),
        }
    }

    /// A registry with a fresh screen in every slot.
    pub fn new() -> (registry: ScreenRegistry)
        ensures
            registry.complete(),
            registry.edit_buffer() == EditBuffer::empty(),
    {
        ScreenRegistry {
            main: Some(MainScreen),
            editing: Some(EditingScreen::new()),
            exiting: Some(ExitingScreen),
        }
    }

    /// True if every slot is filled.
    #[verifier::when_used_as_spec(complete)]
    pub fn is_complete(&self) -> (full: bool)
        ensures
            full == self.complete(),
    {
        self.main.is_some() && self.editing.is_some() && self.exiting.is_some()
    }

    /// True if the slot of `code` is filled.
    pub fn contains(&self, code: ScreenCode) -> (filled: bool)
        ensures
            filled == (self.slot(code) is Some),
    {
        match code {
            ScreenCode::Main => self.main.is_some(),
            ScreenCode::Editing => self.editing.is_some(),
            ScreenCode::Exiting => self.exiting.is_some(),
        }
    }

    /// Takes the screen of `code` out of its slot and leaves the slot empty.
    /// The other slots are left alone.
    pub fn remove(&mut self, code: ScreenCode) -> (screen: Option<AnyScreen>)
        ensures
            screen == old(self).slot(code),
            *final(self) == old(self).without(code),
    {
        match code {
            ScreenCode::Main => match self.main.take() {
                Some(screen) => Some(AnyScreen::Main(screen)),
                None => None,
            },
            ScreenCode::Editing => match self.editing.take() {
                Some(screen) => Some(AnyScreen::Editing(screen)),
                None => None,
            },
            ScreenCode::Exiting => match self.exiting.take() {
                Some(screen) => Some(AnyScreen::Exiting(screen)),
                None => None,
            },
        }
    }

    /// Puts `screen` into the slot of its own identity and hands back what
    /// the slot held before. The other slots are left alone.
    pub fn insert(&mut self, screen: AnyScreen) -> (displaced: Option<AnyScreen>)
        ensures
            displaced == old(self).slot(screen.screen_code()),
            *final(self) == old(self).with(screen),
    {
        match screen {
            AnyScreen::Main(screen) => {
                let mut held = Some(screen);
                std::mem::swap(&mut self.main, &mut held);
                match held {
                    Some(before) => Some(AnyScreen::Main(before)),
                    None => None,
                }
            },
            AnyScreen::Editing(screen) => {
                let mut held = Some(screen);
                std::mem::swap(&mut self.editing, &mut held);
                match held {
                    Some(before) => Some(AnyScreen::Editing(before)),
                    None => None,
                }
            },
            AnyScreen::Exiting(screen) => {
                let mut held = Some(screen);
                std::mem::swap(&mut self.exiting, &mut held);
                match held {
                    Some(before) => Some(AnyScreen::Exiting(before)),
                    None => None,
                }
            },
        }
    }
}

} // verus!
