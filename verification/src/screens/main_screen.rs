//! The screen that lists the store.

use vstd::prelude::*;
use crate::app::{App, ScreenCode};
use crate::keys::KeyCode;
use crate::model::main_target;
use crate::screens::screen_trait::Screen;
use crate::store::KeyValueStore;

verus! {

/// The width of the key column of the listing, in characters.
pub const KEY_COLUMN_WIDTH: usize = 25;

/// `count` spaces.
pub open spec fn spaces(count: nat) -> Seq<char> {
    Seq::new(count, |i: int| ' ')
}

/// `key` followed by as many spaces as it takes to fill the key column. A key
/// that is as wide as the column or wider is left as it is.
pub open spec fn padded_key(key: Seq<char>) -> Seq<char> {
    if key.len() >= KEY_COLUMN_WIDTH {
        key
    } else {
        key + spaces((KEY_COLUMN_WIDTH - key.len()) as nat)
    }
}

/// The line of the listing for one entry: the key in its column, then
/// `" : "`, then the value.
pub open spec fn entry_line(key: Seq<char>, value: Seq<char>) -> Seq<char> {
    padded_key(key) + seq![' ', ':', ' '] + value
}

/// The line of the listing for the entry of `key` and `value`.
pub fn format_entry(key: &String, value: &String) -> (line: String)
    ensures
        line@ == entry_line(key@, value@),
{
    let mut line = key.clone();
    let mut width = key.as_str().unicode_len();
    assert(line@ =~= key@ + spaces(0));
    while width < KEY_COLUMN_WIDTH
        invariant
            key@.len() <= width,
            width <= KEY_COLUMN_WIDTH || width == key@.len(),
            line@ == key@ + spaces((width - key@.len()) as nat),
        decreases KEY_COLUMN_WIDTH - width,
    {
        line.push(' ');
        width += 1;
        assert(line@ =~= key@ + spaces((width - key@.len()) as nat));
    }
    assert(line@ =~= padded_key(key@));
    line.push(' ');
    line.push(':');
    line.push(' ');
    line.append(value.as_str());
    assert(line@ =~= entry_line(key@, value@));
    line
}

/// What the main screen shows between its header and its footer.
#[derive(Debug, PartialEq, Eq)]
pub enum MainBody {
    /// The store is empty: a notice says so.
    NoData,
    /// The listing of the store, one line for each entry.
    Listing(Vec<String>),
}

/// The main screen. It holds no state of its own.
#[derive(Clone, Copy, Debug, Default, PartialEq, Eq, Structural)]
pub struct MainScreen;

impl MainScreen {
    /// The lines of the listing: one for each entry of the store, in the
    /// order of the store's listing. An empty store has no lines, and the
    /// screen then shows a notice in their place.
    pub fn body_lines(&self, pairs: &KeyValueStore) -> (lines: Vec<String>)
        ensures
            lines@.len() == pairs.listing().len(),
            forall|i: int|
                0 <= i < lines@.len() ==> (#[trigger] lines@[i])@ == entry_line(
                    pairs.listing()[i].0,
                    pairs.listing()[i].1,
                ),
    {
        let entries = pairs.entries();
        let mut lines: Vec<String> = Vec::new();
        let mut at: usize = 0;
        while at < entries.len()
            invariant
                at <= entries.len(),
                lines@.len() == at,
                crate::store::pairs_view(entries@) == pairs.listing(),
                forall|i: int|
                    0 <= i < at ==> (#[trigger] lines@[i])@ == entry_line(
                        pairs.listing()[i].0,
                        pairs.listing()[i].1,
                    ),
            decreases entries.len() - at,
        {
            let line = format_entry(&entries[at].0, &entries[at].1);
            assert(pairs.listing()[at as int] == (entries@[at as int].0@, entries@[at as int].1@));
            lines.push(line);
            at += 1;
        }
        lines
    }
}

impl MainScreen {
    /// The body of the screen: the notice for an empty store, and the
    /// listing for any other.
    pub fn body(&self, pairs: &KeyValueStore) -> (body: MainBody)
        ensures
            match body {
                MainBody::NoData => pairs.listing().len() == 0,
                MainBody::Listing(lines) => {
                    &&& pairs.listing().len() > 0
                    &&& lines@.len() == pairs.listing().len()
                    &&& forall|i: int|
                        0 <= i < lines@.len() ==> (#[trigger] lines@[i])@ == entry_line(
                            pairs.listing()[i].0,
                            pairs.listing()[i].1,
                        )
                },
            },
    {
        if pairs.is_empty() {
            MainBody::NoData
        } else {
            MainBody::Listing(self.body_lines(pairs))
        }
    }
}

impl Screen for MainScreen {
    /// `e` or `E` opens the editing screen, `q` or `Q` the exit prompt. No
    /// other key does anything.
    fn handle_key_event(&mut self, app: &mut App, key_code: KeyCode)
        ensures
            *final(app) == (App {
                current_screen_code: match main_target(key_code) {
                    Some(target) => target,
                    None => old(app).current_screen_code,
                },
                ..*old(app)
            }),
    {
        match key_code {
            KeyCode::Char('e') | KeyCode::Char('E') => {
                app.switch_screen(ScreenCode::Editing);
            },
            KeyCode::Char('q') | KeyCode::Char('Q') => {
                app.switch_screen(ScreenCode::Exiting);
            },
            _ => {},
        }
    }
}

} // verus!
