//! The screen that asks whether to print the store before leaving.

use vstd::prelude::*;
use crate::app::App;
use crate::keys::KeyCode;
use crate::model::{exit_answer, ExitAnswer};
use crate::screens::screen_trait::Screen;

verus! {

impl ExitAnswer {
    /// The answer that `key_code` gives to the prompt, if it gives one: `y`
    /// is yes, `n` and `q` are no.
    pub fn from_key(key_code: KeyCode) -> (answer: Option<ExitAnswer>)
        ensures
            answer == exit_answer(key_code),
    {
        match key_code {
            KeyCode::Char('y') => Some(ExitAnswer::Yes),
            KeyCode::Char('n') | KeyCode::Char('q') => Some(ExitAnswer::No),
            _ => None,
        }
    }

    /// Whether the store is printed after this answer. The store is printed
    /// after either answer; an editor that is to leave silently on "no"
    /// changes this function and its specification, and nothing else.
    pub fn should_print(self) -> (print: bool)
        ensures
            print == self.prints(),
    {
        match self {
            ExitAnswer::Yes => true,
            ExitAnswer::No => true,
        }
    }
}

/// The exit prompt. It holds no state of its own.
#[derive(Clone, Copy, Debug, Default, PartialEq, Eq, Structural)]
pub struct ExitingScreen;

impl Screen for ExitingScreen {
    /// An answer to the prompt sets both exit flags. No other key does
    /// anything: the prompt stays.
    fn handle_key_event(&mut self, app: &mut App, key_code: KeyCode)
        ensures
            *final(app) == match exit_answer(key_code) {
                Some(answer) => App { should_exit: true, should_print: answer.prints(), ..*old(app) },
                None => *old(app),
            },
    {
        match ExitAnswer::from_key(key_code) {
            Some(answer) => {
                app.should_print = answer.should_print();
                app.should_exit = true;
            },
            None => {},
        }
    }
}

} // verus!
