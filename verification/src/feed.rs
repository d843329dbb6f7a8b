//! The feed list view: an entry sequence, a selection cursor that is always
//! in range while entries exist, and navigation that clamps at both ends.

use crate::layout::Band;
use vstd::prelude::*;

verus! {

/// Display intent of one entry, interpreted by the drawing backend into
/// concrete styling (for instance unread versus read).
#[derive(Clone, Copy, PartialEq, Eq, Structural, Debug)]
pub enum Emphasis {
    Plain,
    Bold,
    Accent,
}

/// One row of the feed list: its display text and its display intent.
#[derive(Debug)]
pub struct FeedEntry {
    pub label: String,
    pub emphasis: Emphasis,
}

/// The cursor after one upward move: step back one entry, stopping at the
/// first (no wrap-around); an empty selection stays empty.
pub open spec fn up_cursor(c: Option<int>) -> Option<int> {
    match c {
        Some(i) => if i > 0 {
            Some(i - 1)
        } else {
            Some(i)
        },
        None => None,
    }
}

/// The cursor after one downward move: step forward one entry, clamped at
/// the last valid index of an `n`-entry list; an empty selection stays empty.
pub open spec fn down_cursor(c: Option<int>, n: int) -> Option<int> {
    match c {
        Some(i) => if i + 1 < n {
            Some(i + 1)
        } else {
            Some(i)
        },
        None => None,
    }
}

/// The cursor a freshly built view starts with: the first entry when any
/// exist, otherwise no selection.
pub open spec fn initial_cursor(n: int) -> Option<int> {
    if n > 0 {
        Some(0)
    } else {
        None
    }
}

/// The feed list widget state: the entries, the selection cursor, and the
/// scroll offset of the window shown by the latest render.
pub struct FeedListView {
    entries: Vec<FeedEntry>,
    cursor: Option<usize>,
    scroll: usize,
}

impl FeedListView {
    /// The entry sequence, in display order.
    pub closed spec fn entries_view(self) -> Seq<FeedEntry> {
        self.entries@
    }

    /// The selection cursor as a mathematical index.
    pub closed spec fn cursor_spec(self) -> Option<int> {
        match self.cursor {
            Some(i) => Some(i as int),
            None => None,
        }
    }

    /// The scroll offset of the current window.
    pub closed spec fn scroll_spec(self) -> int {
        self.scroll as int
    }

    /// Well-formedness: with no entries there is no selection and no
    /// scroll; with entries, both the cursor and the scroll offset are
    /// valid indices.
    pub open spec fn wf(self) -> bool {
        let n = self.entries_view().len() as int;
        &&& (n == 0 ==> self.cursor_spec() is None && self.scroll_spec() == 0)
        &&& (n > 0 ==> {
            &&& self.cursor_spec() matches Some(i) && 0 <= i < n
            &&& 0 <= self.scroll_spec() < n
        })
    }

    /// Build a view over `entries`, selecting the first entry when any
    /// exist.
    pub fn new(entries: Vec<FeedEntry>) -> (v: FeedListView)
        ensures
            v.wf(),
            v.entries_view() == entries@,
            v.cursor_spec() == initial_cursor(entries@.len() as int),
            v.scroll_spec() == 0,
    {
        let cursor = if entries.len() > 0 {
            Some(0usize)
        } else {
            None
        };
        FeedListView { entries, cursor, scroll: 0 }
    }

    /// How many entries the view holds.
    pub fn entry_count(&self) -> (n: usize)
        ensures
            n == self.entries_view().len(),
    {
        self.entries.len()
    }

    /// The current selection, if any.
    pub fn cursor(&self) -> (c: Option<usize>)
        ensures
            c is Some <==> self.cursor_spec() is Some,
            c matches Some(i) ==> self.cursor_spec() == Some(i as int),
    {
        self.cursor
    }

    /// The scroll offset chosen by the latest render.
    pub fn scroll_offset(&self) -> (s: usize)
        ensures
            s == self.scroll_spec(),
    {
        self.scroll
    }

    /// Move the selection one entry up. At the first entry, or with no
    /// entries at all, the state is left exactly as it was.
    pub fn move_up(&mut self)
        requires
            old(self).wf(),
        ensures
            final(self).wf(),
            final(self).entries_view() == old(self).entries_view(),
            final(self).scroll_spec() == old(self).scroll_spec(),
            final(self).cursor_spec() == up_cursor(old(self).cursor_spec()),
            ((old(self).cursor_spec() matches Some(i) && i == 0) || old(self).cursor_spec() is None)
                ==> *final(self) == *old(self),
    {
        if let Some(i) = self.cursor {
            if i > 0 {
                self.cursor = Some(i - 1);
            }
        }
    }

    /// Move the selection one entry down, clamped at the last valid index.
    /// At the last entry, or with no entries at all, the state is left
    /// exactly as it was.
    pub fn move_down(&mut self)
        requires
            old(self).wf(),
        ensures
            final(self).wf(),
            final(self).entries_view() == old(self).entries_view(),
            final(self).scroll_spec() == old(self).scroll_spec(),
            final(self).cursor_spec() == down_cursor(
                old(self).cursor_spec(),
                old(self).entries_view().len() as int,
            ),
            ((old(self).cursor_spec() matches Some(i)
                && i + 1 >= old(self).entries_view().len())
                || old(self).cursor_spec() is None) ==> *final(self) == *old(self),
    {
        let n = self.entries.len();
        if let Some(i) = self.cursor {
            if i + 1 < n {
                self.cursor = Some(i + 1);
            }
        }
    }
}

/// One visible row of the rendered list: the entry's display text, whether
/// it is the selected row, and its display intent.
#[derive(Debug)]
pub struct RenderedRow {
    pub text: String,
    pub selected: bool,
    pub emphasis: Emphasis,
}

/// The visible window of the feed list, positioned at the top-left corner
/// of the content band; row `k` belongs at vertical offset `y + k`.
#[derive(Debug)]
pub struct RenderedList {
    pub x: u16,
    pub y: u16,
    pub rows: Vec<RenderedRow>,
}

/// The scroll offset that keeps the cursor visible in a window `h` rows
/// high over `n` entries: scroll by the minimum amount needed when the
/// cursor lies above or below the current window, keep the offset
/// otherwise, and never let the window hang past the last entry — so a
/// list that fits the window is always shown whole.
pub open spec fn scrolled_offset(off: int, cursor: int, n: int, h: int) -> int {
    let base = if cursor < off {
        cursor
    } else if cursor >= off + h {
        cursor + 1 - h
    } else {
        off
    };
    let top = if n >= h {
        n - h
    } else {
        0
    };
    if base > top {
        top
    } else {
        base
    }
}

/// The scroll offset after one render pass over `n` entries in a window
/// `h` rows high: nothing to track without entries, nothing to adjust
/// without a window, otherwise the minimum scroll that shows the cursor.
pub open spec fn render_offset(off: int, cursor: Option<int>, n: int, h: int) -> int {
    if n == 0 {
        0
    } else if h == 0 {
        off
    } else {
        match cursor {
            Some(i) => scrolled_offset(off, i, n, h),
            None => off,
        }
    }
}

/// How many rows a render pass yields: none without entries or without a
/// window, otherwise the whole list or a full window, whichever is
/// smaller.
pub open spec fn rendered_count(n: int, h: int) -> int {
    if n == 0 || h == 0 {
        0
    } else if n < h {
        n
    } else {
        h
    }
}

/// The rows of a rendered window starting at offset `off`: row `k` shows
/// entry `off + k`, carries its label and emphasis, and is marked selected
/// exactly when it is the cursor row.
pub open spec fn rows_show_window(
    rows: Seq<RenderedRow>,
    entries: Seq<FeedEntry>,
    cursor: Option<int>,
    off: int,
) -> bool {
    forall|k: int|
        0 <= k < rows.len() ==> {
            &&& (#[trigger] rows[k]).text@ == entries[off + k].label@
            &&& rows[k].emphasis == entries[off + k].emphasis
            &&& rows[k].selected == (cursor == Some(off + k))
        }
}

impl FeedListView {
    /// Project the current state into the content band: a contiguous
    /// window of rows that contains the cursor row whenever anything is
    /// visible, scrolled from the previous window by the minimum amount
    /// necessary and never hanging past the last entry. The chosen offset
    /// is stored so the next render scrolls relative to this window.
    pub fn render(&mut self, content: Band) -> (out: RenderedList)
        requires
            old(self).wf(),
        ensures
            final(self).wf(),
            final(self).entries_view() == old(self).entries_view(),
            final(self).cursor_spec() == old(self).cursor_spec(),
            out.x == content.x,
            out.y == content.y,
            final(self).scroll_spec() == render_offset(
                old(self).scroll_spec(),
                old(self).cursor_spec(),
                old(self).entries_view().len() as int,
                content.height as int,
            ),
            out.rows@.len() == rendered_count(
                old(self).entries_view().len() as int,
                content.height as int,
            ),
            rows_show_window(
                out.rows@,
                old(self).entries_view(),
                old(self).cursor_spec(),
                final(self).scroll_spec(),
            ),
            (old(self).entries_view().len() > 0 && content.height >= 1)
                ==> (old(self).cursor_spec() matches Some(i)
                    && final(self).scroll_spec() <= i < final(self).scroll_spec() + content.height),
    {
        let h = content.height as usize;
        let n = self.entries.len();
        let mut rows: Vec<RenderedRow> = Vec::new();
        if n == 0 {
            self.scroll = 0;
            return RenderedList { x: content.x, y: content.y, rows };
        }
        if h == 0 {
            return RenderedList { x: content.x, y: content.y, rows };
        }
        let i = self.cursor.unwrap();
        let base = if i < self.scroll {
            i
        } else if i - self.scroll >= h {
            i + 1 - h
        } else {
            self.scroll
        };
        let top = if n >= h {
            n - h
        } else {
            0
        };
        let off = if base > top {
            top
        } else {
            base
        };
        let count = if n - off < h {
            n - off
        } else {
            h
        };
        let mut k: usize = 0;
        while k < count
            invariant
                self.wf(),
                self.entries@.len() == n,
                n > 0,
                1 <= h,
                self.cursor == Some(i),
                i < n,
                off < n,
                off <= i < off + h,
                count <= n - off,
                count == rendered_count(n as int, h as int),
                k <= count,
                rows@.len() == k,
                rows_show_window(rows@, self.entries@, Some(i as int), off as int),
            decreases count - k,
        {
            let e = &self.entries[off + k];
            let row = RenderedRow {
                text: e.label.clone(),
                selected: off + k == i,
                emphasis: e.emphasis,
            };
            rows.push(row);
            k = k + 1;
        }
        self.scroll = off;
        RenderedList { x: content.x, y: content.y, rows }
    }
}

/// Rendering is stable: the offset one render pass chooses already keeps
/// the cursor visible, so a second render with no state change in between
/// chooses the same offset — and therefore, the rendered rows being a
/// function of the entries, the cursor and that offset, produces identical
/// output and leaves the state unchanged.
pub proof fn lemma_render_stable(off: int, cursor: Option<int>, n: int, h: int)
    requires
        h >= 0,
    ensures
        render_offset(render_offset(off, cursor, n, h), cursor, n, h) == render_offset(
            off,
            cursor,
            n,
            h,
        ),
{
}

/// Navigation keeps the cursor in range: from any in-range cursor over a
/// non-empty entry sequence, both one move up and one move down land on an
/// in-range cursor again, so after any sequence of moves the cursor still
/// satisfies `0 <= cursor < n`.
pub proof fn lemma_navigation_preserves_range(c: Option<int>, n: int)
    requires
        n > 0,
        c matches Some(i) && 0 <= i < n,
    ensures
        up_cursor(c) matches Some(j) && 0 <= j < n,
        down_cursor(c, n) matches Some(j) && 0 <= j < n,
{
}

/// `down_cursor` applied `k` times.
pub open spec fn down_cursor_iter(c: Option<int>, n: int, k: nat) -> Option<int>
    decreases k,
{
    if k == 0 {
        c
    } else {
        down_cursor_iter(down_cursor(c, n), n, (k - 1) as nat)
    }
}

/// Repeated downward moves stabilize at the last valid index: from any
/// in-range cursor over `n` entries, after `n - 1 - cursor` or more moves
/// the cursor sits at index `n - 1`, and any further move leaves it there.
pub proof fn lemma_move_down_stabilizes(c: Option<int>, n: int, k: nat)
    requires
        n > 0,
        c matches Some(i) && 0 <= i < n && k + i >= n - 1,
    ensures
        down_cursor_iter(c, n, k) == Some(n - 1),
        down_cursor(Some(n - 1), n) == Some(n - 1),
    decreases k,
{
    if k > 0 {
        if let Some(i) = c {
            if i + 1 < n {
                lemma_move_down_stabilizes(Some(i + 1), n, (k - 1) as nat);
            } else {
                lemma_move_down_stabilizes(Some(i), n, (k - 1) as nat);
            }
        }
    }
}

} // verus!
