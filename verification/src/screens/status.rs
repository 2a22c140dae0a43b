//! Status screen: paginated sensor view (accelerometer, gyroscope,
//! environment). Up/down content swipes cycle the pages; the header's
//! close icon returns to the previous screen.

use vstd::prelude::*;

use crate::events::{SwipeDir, SwipeRegion, SystemEvent};
use crate::layout::{header_icon_hit, HEADER_HEIGHT, HEADER_ICON_HIT_WIDTH, HEADER_TOP};
use crate::ui_types::{Action, SystemData};

verus! {

/// Number of pages.
pub const PAGE_COUNT: u8 = 3;

/// Paginated sensor screen; `page` is 0 (accelerometer), 1 (gyroscope)
/// or 2 (environment).
pub struct StatusScreen {
    page: u8,
}

/// Whether a tap lands on the header's close icon.
pub open spec fn spec_close_hit(x: u16, y: u16) -> bool {
    x < HEADER_ICON_HIT_WIDTH && HEADER_TOP <= y < HEADER_TOP + HEADER_HEIGHT
}

/// The page after an event and the action the screen answers with.
pub open spec fn spec_status_event(page: u8, event: SystemEvent) -> (u8, Action) {
    match event {
        SystemEvent::PowerButtonLong => (page, Action::Shutdown),
        SystemEvent::MotionUpdated { .. } => (page, if page < 2 { Action::Redraw } else { Action::Nothing }),
        SystemEvent::Tap { x, y } => (page, if spec_close_hit(x, y) { Action::Back } else { Action::Nothing }),
        SystemEvent::TouchPressed { .. } => (page, if page == 2 { Action::Redraw } else { Action::Nothing }),
        SystemEvent::TouchReleased => (page, if page == 2 { Action::Redraw } else { Action::Nothing }),
        SystemEvent::Swipe { dir: SwipeDir::Up, region: SwipeRegion::Content } => (
            ((page + 1) % 3) as u8,
            Action::Redraw,
        ),
        SystemEvent::Swipe { dir: SwipeDir::Down, region: SwipeRegion::Content } => (
            ((page + 2) % 3) as u8,
            Action::Redraw,
        ),
        _ => (page, Action::Nothing),
    }
}

impl StatusScreen {
    pub closed spec fn spec_page(&self) -> u8 {
        self.page
    }

    /// The page is always one of the three.
    pub closed spec fn wf(&self) -> bool {
        self.page < PAGE_COUNT
    }

    /// The screen on its first page.
    pub fn new() -> (s: Self)
        ensures
            s.wf(),
            s.spec_page() == 0,
    {
        StatusScreen { page: 0 }
    }

    /// Fold an event into the screen.
    pub fn on_event(&mut self, event: &SystemEvent, _data: &mut SystemData) -> (a: Action)
        requires
            old(self).wf(),
        ensures
            final(self).wf(),
            *final(_data) == *old(_data),
            (final(self).spec_page(), a) == spec_status_event(old(self).spec_page(), *event),
    {
        match event {
            SystemEvent::PowerButtonLong => Action::Shutdown,
            SystemEvent::MotionUpdated { .. } if self.page < 2 => Action::Redraw,
            SystemEvent::Tap { x, y } if header_icon_hit(*x, *y) => Action::Back,
            SystemEvent::TouchPressed { .. } if self.page == 2 => Action::Redraw,
            SystemEvent::TouchReleased if self.page == 2 => Action::Redraw,
            SystemEvent::Swipe { dir: SwipeDir::Up, region: SwipeRegion::Content } => {
                self.page = (self.page + 1) % PAGE_COUNT;
                Action::Redraw
            },
            SystemEvent::Swipe { dir: SwipeDir::Down, region: SwipeRegion::Content } => {
                self.page = (self.page + PAGE_COUNT - 1) % PAGE_COUNT;
                Action::Redraw
            },
            _ => Action::Nothing,
        }
    }
}

/// Paging is cyclic: swiping up and then down (or down and then up)
/// returns to the same page.
pub proof fn lemma_page_cycle(page: u8)
    requires
        page < PAGE_COUNT,
    ensures
        ({
            let up = SystemEvent::Swipe { dir: SwipeDir::Up, region: SwipeRegion::Content };
            let down = SystemEvent::Swipe { dir: SwipeDir::Down, region: SwipeRegion::Content };
            &&& spec_status_event(spec_status_event(page, up).0, down).0 == page
            &&& spec_status_event(spec_status_event(page, down).0, up).0 == page
        }),
{
}

} // verus!
