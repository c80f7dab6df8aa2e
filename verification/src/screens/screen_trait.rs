//! What every screen can do.

use vstd::prelude::*;
use crate::app::App;
use crate::keys::KeyCode;

verus! {

/// A screen of the editor.
///
/// While a screen handles a key it is detached from the registry, so that it
/// can change itself and the application at once. It may change anything in
/// the application but the registry, which must come back as it was handed
/// over for the screen to be put back in its place.
pub trait Screen {
    /// Handles one key press.
    fn handle_key_event(&mut self, app: &mut App, key_code: KeyCode)
        ensures
            final(app).screens == old(app).screens,
    ;
}

} // verus!
