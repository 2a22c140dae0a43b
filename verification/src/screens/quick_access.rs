//! Quick Access pull-down overlay: a brightness bar (tap or drag to set
//! 5..=100 %) and a grid of eight on/off tiles. Swiping up closes it.
//! Its state is local and resets every time the overlay opens.

use vstd::prelude::*;

use crate::events::{SwipeDir, SystemEvent};
use crate::layout::{spec_clamp, Rect, SCREEN_H, SCREEN_W};
use crate::text::{push_pad2, spec_pad2};
use crate::ui_types::{Action, ScreenId, SystemData};

verus! {

/// Side padding of the overlay's content.
pub const PAD_X: i32 = 22;

/// Top of the brightness bar.
pub const BRIGHT_BAR_Y: i32 = 116;

/// Height of the brightness bar.
pub const BRIGHT_BAR_H: i32 = 12;

/// Width of the brightness bar: `SCREEN_W - 2 * PAD_X`.
pub const BRIGHT_BAR_W: i32 = 366;

/// Vertical tolerance around the bar for taps and drags.
pub const BRIGHT_VSLOP: i32 = 12;

/// Top of the toggle grid.
pub const TOGGLE_TOP: i32 = 170;

/// Gap between toggle tiles.
pub const TOGGLE_GAP: i32 = 6;

/// Y of the home indicator bar.
pub const HOME_BAR_Y: i32 = SCREEN_H - 18;

/// Bottom of the toggle grid.
pub const GRID_BOTTOM: i32 = HOME_BAR_Y - 30;

/// Width of a toggle tile: `(BRIGHT_BAR_W - 3 * TOGGLE_GAP) / 4`.
pub const TILE_W: i32 = 87;

/// Height of a toggle tile: `(GRID_BOTTOM - TOGGLE_TOP - TOGGLE_GAP) / 2`.
pub const TILE_H: i32 = 139;

/// Number of toggle tiles (4 across, 2 rows).
pub const TOGGLE_COUNT: usize = 8;

/// Brightness the overlay opens with.
pub const DEFAULT_BRIGHTNESS: u8 = 68;

/// Rect of the brightness bar.
pub fn bright_bar_rect() -> (r: Rect)
    ensures
        r == (Rect { x: PAD_X, y: BRIGHT_BAR_Y, width: BRIGHT_BAR_W as u32, height: BRIGHT_BAR_H as u32 }),
{
    Rect { x: PAD_X, y: BRIGHT_BAR_Y, width: 366, height: 12 }
}

/// Rect of toggle tile `idx` (row-major, 4 per row).
pub open spec fn spec_toggle_rect(idx: int) -> Rect {
    Rect {
        x: (PAD_X + (idx % 4) * (TILE_W + TOGGLE_GAP)) as i32,
        y: (TOGGLE_TOP + (idx / 4) * (TILE_H + TOGGLE_GAP)) as i32,
        width: TILE_W as u32,
        height: TILE_H as u32,
    }
}

/// Rect of toggle tile `idx`.
pub fn toggle_rect(idx: usize) -> (r: Rect)
    requires
        idx < TOGGLE_COUNT,
    ensures
        r == spec_toggle_rect(idx as int),
{
    let row = idx / 4;
    let col = idx % 4;
    let x = PAD_X + col as i32 * (TILE_W + TOGGLE_GAP);
    let y = TOGGLE_TOP + row as i32 * (TILE_H + TOGGLE_GAP);
    Rect { x, y, width: 87, height: 139 }
}

/// Brightness selected by a touch at `(x, y)`: `None` outside the bar's
/// band (with slack), else the x position along the bar mapped linearly
/// onto 5..=100 (rounded down), clamped at the ends.
pub open spec fn spec_brightness_from_x(x: int, y: int) -> Option<u8> {
    if y < BRIGHT_BAR_Y - BRIGHT_VSLOP || y >= BRIGHT_BAR_Y + BRIGHT_BAR_H + BRIGHT_VSLOP {
        None
    } else {
        let clamped = spec_clamp(x, PAD_X as int, (PAD_X + BRIGHT_BAR_W - 1) as int);
        let frac = (clamped - PAD_X) * 95 / (BRIGHT_BAR_W - 1);
        Some(spec_clamp(5 + frac, 5, 100) as u8)
    }
}

/// The tile under `(x, y)`, if any: the first one whose rect holds it.
pub open spec fn spec_tile_at(x: int, y: int) -> Option<int> {
    if exists|i: int| 0 <= i < TOGGLE_COUNT && #[trigger] spec_toggle_rect(i).spec_contains(x, y) {
        Some(choose|i: int| 0 <= i < TOGGLE_COUNT && #[trigger] spec_toggle_rect(i).spec_contains(x, y))
    } else {
        None
    }
}

/// Quick Access overlay state.
pub struct QuickAccessScreen {
    /// Screen the overlay was opened over.
    previous: ScreenId,
    /// Local brightness (5..=100). Not persisted.
    brightness: u8,
    /// Per-tile on/off state.
    tiles_on: [bool; 8],
}

/// One event on the overlay: the state before (`o`) and after (`n`)
/// and the action answered.
pub open spec fn spec_quick_access_step(o: QuickAccessScreen, n: QuickAccessScreen, event: SystemEvent, a: Action) -> bool {
    match event {
        SystemEvent::PowerButtonLong => a == Action::Shutdown && n == o,
        SystemEvent::Swipe { dir: SwipeDir::Up, .. } => a == Action::Back && n == o,
        SystemEvent::TouchPressed { x, y } => match spec_brightness_from_x(x as int, y as int) {
            Some(v) => {
                &&& n.spec_brightness() == v
                &&& n.spec_tiles() == o.spec_tiles()
                &&& a == (if v != o.spec_brightness() { Action::Redraw } else { Action::Nothing })
            },
            None => a == Action::Nothing && n == o,
        },
        SystemEvent::Tap { x, y } => match spec_brightness_from_x(x as int, y as int) {
            Some(v) => {
                &&& n.spec_brightness() == v
                &&& n.spec_tiles() == o.spec_tiles()
                &&& a == Action::Redraw
            },
            None => match spec_tile_at(x as int, y as int) {
                Some(i) => {
                    &&& n.spec_brightness() == o.spec_brightness()
                    &&& n.spec_tiles() == o.spec_tiles().update(i, !o.spec_tiles()[i])
                    &&& a == Action::Redraw
                },
                None => a == Action::Nothing && n == o,
            },
        },
        _ => a == Action::Nothing && n == o,
    }
}

impl QuickAccessScreen {
    pub closed spec fn spec_previous(&self) -> ScreenId {
        self.previous
    }

    pub closed spec fn spec_brightness(&self) -> u8 {
        self.brightness
    }

    pub closed spec fn spec_tiles(&self) -> Seq<bool> {
        self.tiles_on@
    }

    /// The overlay as it opens over `previous`: brightness 68, all tiles off.
    pub fn new(previous: ScreenId) -> (s: Self)
        ensures
            s.spec_previous() == previous,
            s.spec_brightness() == DEFAULT_BRIGHTNESS,
            s.spec_tiles() == Seq::new(8, |i: int| false),
    {
        let s = QuickAccessScreen { previous, brightness: DEFAULT_BRIGHTNESS, tiles_on: [false; 8] };
        proof {
            assert(s.tiles_on@ =~= Seq::new(8, |i: int| false));
        }
        s
    }

    /// The brightness readout: the value zero-padded to two digits, then
    /// `%`.
    pub fn brightness_text(&self) -> (t: Vec<u8>)
        ensures
            t@ == spec_pad2(self.spec_brightness() as int) + seq![37u8],
    {
        let mut t: Vec<u8> = Vec::new();
        push_pad2(&mut t, self.brightness as u64);
        t.push(37u8);
        t
    }

    /// Width of the bar's fill: the brightness above 5 % as a share of
    /// the 95 % span, across the bar's inner width (rounded toward
    /// zero). Nothing is filled unless it is positive.
    pub fn brightness_fill_w(&self) -> (w: i32)
        ensures
            w == crate::layout::spec_trunc_div((self.spec_brightness() - 5) * (BRIGHT_BAR_W - 2), 95),
    {
        let span: i32 = 364;
        assert(span == BRIGHT_BAR_W - 2);
        (self.brightness as i32 - 5) * span / 95
    }

    /// Brightness selected by a touch at `(x, y)`, or `None` if the
    /// touch is outside the bar's vertical band.
    pub fn brightness_from_x(x: i32, y: i32) -> (r: Option<u8>)
        ensures
            r == spec_brightness_from_x(x as int, y as int),
            r matches Some(v) ==> 5 <= v <= 100,
    {
        let bar = bright_bar_rect();
        let vslop = 12i32;
        if y < bar.y - vslop || y >= bar.y + bar.height as i32 + vslop {
            return None;
        }
        let left = bar.x;
        let right = left + bar.width as i32;
        let clamped = if x < left {
            left
        } else if x > right - 1 {
            right - 1
        } else {
            x
        };
        assert(0 <= clamped - left <= 365);
        let frac = (clamped - left) * 95 / (bar.width as i32 - 1);
        assert(0 <= frac <= 95) by (nonlinear_arith)
            requires
                0 <= clamped - left <= 365,
                frac == (clamped - left) * 95 / 365,
        ;
        let v = 5 + frac;
        let c = if v < 5 {
            5
        } else if v > 100 {
            100
        } else {
            v
        };
        Some(c as u8)
    }

    /// Fold an event into the overlay: swipe up closes it, a touch on the
    /// brightness bar sets the brightness (a drag only redraws on
    /// change), a tap on a tile flips it.
    pub fn on_event(&mut self, event: &SystemEvent, _data: &mut SystemData) -> (a: Action)
        ensures
            final(self).spec_previous() == old(self).spec_previous(),
            *final(_data) == *old(_data),
            spec_quick_access_step(*old(self), *final(self), *event, a),
    {
        match event {
            SystemEvent::PowerButtonLong => Action::Shutdown,
            SystemEvent::Swipe { dir: SwipeDir::Up, .. } => Action::Back,
            SystemEvent::TouchPressed { x, y } => {
                if let Some(v) = Self::brightness_from_x(*x as i32, *y as i32) {
                    if v != self.brightness {
                        self.brightness = v;
                        return Action::Redraw;
                    }
                }
                Action::Nothing
            },
            SystemEvent::Tap { x, y } => {
                let xi = *x as i32;
                let yi = *y as i32;
                if let Some(v) = Self::brightness_from_x(xi, yi) {
                    self.brightness = v;
                    return Action::Redraw;
                }
                let mut i: usize = 0;
                while i < TOGGLE_COUNT
                    invariant
                        0 <= i <= TOGGLE_COUNT,
                        xi == *x,
                        yi == *y,
                        *event == (SystemEvent::Tap { x: *x, y: *y }),
                        spec_brightness_from_x(xi as int, yi as int) is None,
                        *self == *old(self),
                        forall|j: int| 0 <= j < i ==> !#[trigger] spec_toggle_rect(j).spec_contains(xi as int, yi as int),
                    decreases TOGGLE_COUNT - i,
                {
                    if toggle_rect(i).contains(xi, yi) {
                        proof {
                            lemma_tiles_disjoint(i as int, xi as int, yi as int);
                        }
                        let on = self.tiles_on[i];
                        self.tiles_on[i] = !on;
                        return Action::Redraw;
                    }
                    i = i + 1;
                }
                Action::Nothing
            },
            _ => Action::Nothing,
        }
    }
}

/// The toggle tiles do not overlap: a point inside tile `i` is the tile
/// [`spec_tile_at`] picks.
proof fn lemma_tiles_disjoint(i: int, x: int, y: int)
    requires
        0 <= i < TOGGLE_COUNT,
        spec_toggle_rect(i).spec_contains(x, y),
    ensures
        spec_tile_at(x, y) == Some(i),
{
    assert(spec_toggle_rect(i).spec_contains(x, y));
    let c = choose|j: int| 0 <= j < TOGGLE_COUNT && #[trigger] spec_toggle_rect(j).spec_contains(x, y);
    assert(0 <= c < TOGGLE_COUNT && spec_toggle_rect(c).spec_contains(x, y));
    assert(c == i) by {
        assert(c % 4 == i % 4 && c / 4 == i / 4);
    }
}

/// Every brightness the bar yields is within 5..=100, and the bar's two
/// ends give exactly 5 and 100.
pub proof fn lemma_brightness_range(x: int, y: int)
    requires
        BRIGHT_BAR_Y - BRIGHT_VSLOP <= y < BRIGHT_BAR_Y + BRIGHT_BAR_H + BRIGHT_VSLOP,
    ensures
        spec_brightness_from_x(x, y) matches Some(v) && 5 <= v <= 100,
        x <= PAD_X ==> spec_brightness_from_x(x, y) == Some(5u8),
        x >= PAD_X + BRIGHT_BAR_W - 1 ==> spec_brightness_from_x(x, y) == Some(100u8),
{
    let clamped = spec_clamp(x, PAD_X as int, (PAD_X + BRIGHT_BAR_W - 1) as int);
    let frac = (clamped - PAD_X) * 95 / (BRIGHT_BAR_W - 1);
    assert(0 <= frac <= 95) by (nonlinear_arith)
        requires
            0 <= clamped - PAD_X <= 365,
            frac == (clamped - PAD_X) * 95 / 365,
    ;
}

} // verus!
