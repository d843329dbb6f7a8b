//! Key-event translation: which key events drive the selection, and what
//! each one does to the cursor.

use crate::feed::{down_cursor, up_cursor, FeedListView};
use vstd::prelude::*;

verus! {

/// The keys the viewer reacts to; everything else (quit, reload, and any
/// other command key) belongs to the driver and arrives here as `Other`.
#[derive(Clone, Copy, PartialEq, Eq, Structural, Debug)]
pub enum Key {
    Up,
    Down,
    Other,
}

/// The phase of a key event. Only the press phase drives navigation;
/// releases and auto-repeats are ignored.
#[derive(Clone, Copy, PartialEq, Eq, Structural, Debug)]
pub enum KeyPhase {
    Press,
    Release,
    Repeat,
}

/// The cursor after one key event over `n` entries: a pressed Up or Down
/// key moves the selection; releases, repeats and all other keys leave it
/// unchanged.
pub open spec fn key_cursor(c: Option<int>, n: int, key: Key, phase: KeyPhase) -> Option<int> {
    if phase is Press {
        match key {
            Key::Up => up_cursor(c),
            Key::Down => down_cursor(c, n),
            Key::Other => c,
        }
    } else {
        c
    }
}

impl FeedListView {
    /// Apply one key event to the selection: Up and Down presses navigate,
    /// every other event leaves the state exactly as it was.
    pub fn handle_key(&mut self, key: Key, phase: KeyPhase)
        requires
            old(self).wf(),
        ensures
            final(self).wf(),
            final(self).entries_view() == old(self).entries_view(),
            final(self).scroll_spec() == old(self).scroll_spec(),
            final(self).cursor_spec() == key_cursor(
                old(self).cursor_spec(),
                old(self).entries_view().len() as int,
                key,
                phase,
            ),
            (!(phase is Press) || key is Other) ==> *final(self) == *old(self),
    {
        match phase {
            KeyPhase::Press => match key {
                Key::Up => self.move_up(),
                Key::Down => self.move_down(),
                Key::Other => {},
            },
            KeyPhase::Release => {},
            KeyPhase::Repeat => {},
        }
    }
}

} // verus!
