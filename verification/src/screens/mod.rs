//! Screen state machines: each screen folds events into its own state and
//! the shared [`SystemData`](crate::ui_types::SystemData), and answers with
//! an [`Action`](crate::ui_types::Action) for the model.
//!
//! Drawing is done elsewhere; the few positions that the visual theme
//! defines for the application chrome reach the screens through
//! [`AppChrome`].


pub mod active;
pub mod alarm;
pub mod battery;
pub mod clock;
pub mod quick_access;
pub mod settings;
pub mod status;
pub mod timer;

use vstd::prelude::*;

use crate::events::SystemEvent;
use crate::layout::{Rect, ScrollState, SCREEN_H, SCREEN_W};

verus! {

/// Positions of the application chrome that the visual theme defines.
#[derive(Debug, Clone, Copy, PartialEq, Eq, Structural)]
pub struct AppChrome {
    /// First y below the application header, where content starts.
    pub content_top: i32,
    /// Y of the bottom home-indicator bar.
    pub home_bar_y: i32,
    /// Distance from the bottom edge that bottom-parked controls keep.
    pub bottom_safe_margin: i32,
    /// Hit zone of the header's back chevron.
    pub back_zone: Rect,
}

/// Height of a tile in the bottom tile row.
pub const BOTTOM_TILE_H: i32 = 38;

/// Side padding of the bottom tile row.
pub const BOTTOM_TILE_PAD_X: i32 = 22;

/// Gap between the two bottom tiles.
pub const BOTTOM_TILE_GAP: i32 = 6;

/// Width of each of the two bottom tiles: `(SCREEN_W - 2 * PAD - GAP) / 2`.
pub const BOTTOM_TILE_W: i32 = 180;

impl AppChrome {
    /// The chrome lies on the panel, top to bottom: content, then the
    /// home bar, then the bottom margin.
    pub open spec fn wf(&self) -> bool {
        &&& 0 <= self.content_top
        &&& self.content_top + 4 <= self.home_bar_y <= SCREEN_H
        &&& 0 <= self.bottom_safe_margin <= SCREEN_H
    }

    /// Y of the bottom tile row's top edge.
    pub open spec fn spec_bottom_tile_y(&self) -> int {
        SCREEN_H - self.bottom_safe_margin - BOTTOM_TILE_H
    }

    /// The left cell of the two-tile bottom row.
    pub open spec fn spec_bottom_left(&self) -> Rect {
        Rect {
            x: BOTTOM_TILE_PAD_X,
            y: self.spec_bottom_tile_y() as i32,
            width: BOTTOM_TILE_W as u32,
            height: BOTTOM_TILE_H as u32,
        }
    }

    /// The right cell of the two-tile bottom row.
    pub open spec fn spec_bottom_right(&self) -> Rect {
        Rect {
            x: (BOTTOM_TILE_PAD_X + BOTTOM_TILE_W + BOTTOM_TILE_GAP) as i32,
            y: self.spec_bottom_tile_y() as i32,
            width: BOTTOM_TILE_W as u32,
            height: BOTTOM_TILE_H as u32,
        }
    }

    /// The two cells of the bottom tile row, left first.
    pub fn bottom_tiles(&self) -> (r: (Rect, Rect))
        requires
            self.wf(),
        ensures
            r.0 == self.spec_bottom_left(),
            r.1 == self.spec_bottom_right(),
    {
        let y = SCREEN_H - self.bottom_safe_margin - BOTTOM_TILE_H;
        (Rect { x: 22, y, width: 180, height: 38 }, Rect { x: 208, y, width: 180, height: 38 })
    }

    /// Whether a tap lands on the header's back chevron.
    pub fn back_hit(&self, x: u16, y: u16) -> (r: bool)
        ensures
            r == self.back_zone.spec_contains(x as int, y as int),
    {
        self.back_zone.contains(x as i32, y as i32)
    }
}

/// Whether the point `(x, y)` lies in `rect`.
pub fn rect_hit(rect: Rect, x: u16, y: u16) -> (r: bool)
    ensures
        r == rect.spec_contains(x as int, y as int),
{
    rect.contains(x as i32, y as i32)
}

/// The scroll state after a touch event on a region whose content is
/// `content_h` high in a viewport `viewport_h` high, and whether the
/// offset moved: a press drags (offset clamped to the overflow), a
/// release ends the drag, anything else is ignored.
pub fn handle_scroll_drag(scroll: &mut ScrollState, event: &SystemEvent, viewport_h: i32, content_h: i32) -> (moved: bool)
    requires
        i32::MIN <= content_h - viewport_h <= i32::MAX,
        event matches SystemEvent::TouchPressed { y, .. } ==> (old(scroll).spec_last_drag_y() matches Some(last)
            ==> {
            &&& i32::MIN <= y - last <= i32::MAX
            &&& i32::MIN <= old(scroll).spec_offset() - (y - last) <= i32::MAX
        }),
    ensures
        match *event {
            SystemEvent::TouchPressed { y, .. } => {
                let m = if content_h - viewport_h < 0 { 0 } else { content_h - viewport_h };
                let target = match old(scroll).spec_last_drag_y() {
                    None => old(scroll).spec_offset(),
                    Some(last) => old(scroll).spec_offset() - (y - last),
                };
                &&& final(scroll).spec_offset() == crate::layout::spec_clamp(target, 0, m)
                &&& final(scroll).spec_last_drag_y() == Some(y as i32)
                &&& moved == (final(scroll).spec_offset() != old(scroll).spec_offset())
            },
            SystemEvent::TouchReleased => {
                &&& final(scroll).spec_offset() == old(scroll).spec_offset()
                &&& final(scroll).spec_last_drag_y() is None
                &&& !moved
            },
            _ => *final(scroll) == *old(scroll) && !moved,
        },
{
    match event {
        SystemEvent::TouchPressed { y, .. } => scroll.drag(*y as i32, content_h - viewport_h),
        SystemEvent::TouchReleased => {
            scroll.release();
            false
        },
        _ => false,
    }
}

} // verus!
