//! A terminal feed-list viewer core: a fixed four-band screen layout and a
//! stateful list widget that tracks a selection cursor, clamps it against the
//! entry count, and projects the current state into renderable rows.
//!
//! The crate is pure: it never touches the terminal itself. A driver supplies
//! the current screen size and key events, and hands the planned bands and
//! rendered rows to whatever drawing backend it uses.

pub mod content;
pub mod feed;
pub mod input;
pub mod layout;
