//! Screen layout planning: partition the terminal area into four vertically
//! stacked bands (title, content, hint bar, command line).

use vstd::prelude::*;

verus! {

/// A rectangular region of the terminal screen, in cell coordinates.
#[derive(Clone, Copy, PartialEq, Eq, Structural, Debug)]
pub struct Band {
    pub x: u16,
    pub y: u16,
    pub width: u16,
    pub height: u16,
}

/// The four bands of the screen, top to bottom: a one-row title bar, the
/// flexible content region, a one-row key-binding hint bar, and a one-row
/// command line.
#[derive(Clone, Copy, PartialEq, Eq, Structural, Debug)]
pub struct ScreenPlan {
    pub title: Band,
    pub content: Band,
    pub hints: Band,
    pub command: Band,
}

/// Height of the content band: whatever is left after the three fixed
/// one-row bands, floored at zero.
pub open spec fn content_height(total_height: int) -> int {
    if total_height >= 3 {
        total_height - 3
    } else {
        0
    }
}

/// What `plan` produces for a screen of `w` by `h` cells: four full-width
/// bands at cumulative vertical offsets, the three fixed ones one row high.
pub open spec fn plan_of(p: ScreenPlan, w: int, h: int) -> bool {
    &&& p.title == (Band { x: 0, y: 0, width: w as u16, height: 1 })
    &&& p.content == (Band {
        x: 0,
        y: 1,
        width: w as u16,
        height: content_height(h) as u16,
    })
    &&& p.hints == (Band {
        x: 0,
        y: (1 + content_height(h)) as u16,
        width: w as u16,
        height: 1,
    })
    &&& p.command == (Band {
        x: 0,
        y: (2 + content_height(h)) as u16,
        width: w as u16,
        height: 1,
    })
}

/// Partition a screen of `total_width` by `total_height` cells into the four
/// bands. Every non-negative size is valid; when fewer than three rows are
/// available the content band collapses to height zero, and the planner
/// still returns four well-formed bands.
pub fn plan(total_width: u16, total_height: u16) -> (p: ScreenPlan)
    ensures
        plan_of(p, total_width as int, total_height as int),
{
    let body: u16 = if total_height >= 3 {
        total_height - 3
    } else {
        0
    };
    ScreenPlan {
        title: Band { x: 0, y: 0, width: total_width, height: 1 },
        content: Band { x: 0, y: 1, width: total_width, height: body },
        hints: Band { x: 0, y: 1 + body, width: total_width, height: 1 },
        command: Band { x: 0, y: 2 + body, width: total_width, height: 1 },
    }
}

/// The four bands tile the screen: whenever the screen has room for the
/// three fixed rows, the band heights sum to the total height, and each
/// band begins exactly where the previous one ends, so the occupied row
/// ranges are contiguous and non-overlapping.
pub proof fn lemma_plan_partitions(p: ScreenPlan, w: int, h: int)
    requires
        plan_of(p, w, h),
        3 <= h <= u16::MAX,
    ensures
        p.title.height + p.content.height + p.hints.height + p.command.height == h,
        p.title.y == 0,
        p.content.y == p.title.y + p.title.height,
        p.hints.y == p.content.y + p.content.height,
        p.command.y == p.hints.y + p.hints.height,
{
}

/// A screen too short for the three fixed rows still gets a well-formed
/// plan: the content band has height exactly zero, never a negative value.
pub proof fn lemma_short_screen_empty_content(p: ScreenPlan, w: int, h: int)
    requires
        plan_of(p, w, h),
        0 <= h < 3,
    ensures
        p.content.height == 0,
{
}

} // verus!
