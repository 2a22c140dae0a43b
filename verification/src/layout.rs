//! Shared layout grammar for all screens: header bar, hero pill, circle
//! button pair, card stack geometry, and the vertical-stack and scroll
//! helpers that keep render-side rects and event-side hit tests in step.
//!
//! Rectangles are held as plain integers ([`Rect`]); the drawing layer
//! converts them to its own rectangle type.

use vstd::prelude::*;

verus! {

/// Panel width in pixels.
pub const SCREEN_W: i32 = 410;

/// Panel height in pixels.
pub const SCREEN_H: i32 = 502;

/// An axis-aligned rectangle: top-left corner plus size.
#[derive(Debug, Clone, Copy, PartialEq, Eq, Structural)]
pub struct Rect {
    pub x: i32,
    pub y: i32,
    pub width: u32,
    pub height: u32,
}

impl Rect {
    /// A rectangle at `(x, y)` of the given size.
    pub fn new(x: i32, y: i32, width: u32, height: u32) -> (r: Self)
        ensures
            r == (Rect { x, y, width, height }),
    {
        Rect { x, y, width, height }
    }

    /// Whether a point lies inside (left/top edges inclusive,
    /// right/bottom edges exclusive).
    pub open spec fn spec_contains(self, px: int, py: int) -> bool {
        &&& self.x <= px < self.x + self.width
        &&& self.y <= py < self.y + self.height
    }

    /// Whether the point `(px, py)` lies inside the rectangle.
    pub fn contains(&self, px: i32, py: i32) -> (r: bool)
        ensures
            r == self.spec_contains(px as int, py as int),
    {
        let px = px as i64;
        let py = py as i64;
        let x = self.x as i64;
        let y = self.y as i64;
        px >= x && px < x + self.width as i64 && py >= y && py < y + self.height as i64
    }
}

// -- Header bar --------------------------------------------------------------

/// Top edge of the header bar, measured from the framebuffer top.
pub const HEADER_TOP: i32 = 40;

/// Height of the header bar.
pub const HEADER_HEIGHT: i32 = 40;

/// Full-width rect for a screen's header bar.
pub fn header_rect() -> (r: Rect)
    ensures
        r == (Rect { x: 0, y: HEADER_TOP, width: SCREEN_W as u32, height: HEADER_HEIGHT as u32 }),
{
    Rect { x: 0, y: HEADER_TOP, width: 410, height: 40 }
}

// -- Hero pill ---------------------------------------------------------------

/// Width of the hero pill.
pub const HERO_PILL_W: i32 = 320;

/// Height of the hero pill.
pub const HERO_PILL_H: i32 = 130;

/// Top of the hero pill.
pub const HERO_PILL_Y: i32 = 160;

/// Left edge of the hero pill: `(SCREEN_W - HERO_PILL_W) / 2`, centered.
pub const HERO_PILL_X: i32 = 45;

/// Rect of the hero pill.
pub fn hero_rect() -> (r: Rect)
    ensures
        r == (Rect { x: HERO_PILL_X, y: HERO_PILL_Y, width: HERO_PILL_W as u32, height: HERO_PILL_H as u32 }),
{
    Rect { x: HERO_PILL_X, y: HERO_PILL_Y, width: 320, height: 130 }
}

// -- Circle button pair ------------------------------------------------------

/// Drawn radius of each bottom circle.
pub const CIRCLE_RADIUS: i32 = 70;

/// Horizontal gap between the two circles (edge-to-edge).
pub const CIRCLE_GAP: i32 = 24;

/// X center of the left circle: `SCREEN_W / 2 - CIRCLE_GAP / 2 - CIRCLE_RADIUS`.
pub const LEFT_CIRCLE_CX: i32 = 123;

/// X center of the right circle: `SCREEN_W / 2 + CIRCLE_GAP / 2 + CIRCLE_RADIUS`.
pub const RIGHT_CIRCLE_CX: i32 = 287;

/// Vertical center of both circles.
pub const CIRCLE_CY: i32 = 310 + CIRCLE_RADIUS;

/// Glyph drawing radius inside a circle.
pub const GLYPH_RADIUS: i32 = CIRCLE_RADIUS - 37;

/// Gap between the bottom of a circle and the top of its caption.
pub const CIRCLE_LABEL_GAP: i32 = 14;

/// Whether `(x, y)` lies in the closed disc of radius `r` around `(cx, cy)`.
pub open spec fn spec_in_disc(x: int, y: int, cx: int, cy: int, r: int) -> bool {
    (x - cx) * (x - cx) + (y - cy) * (y - cy) <= r * r
}

fn disc_hit(x: u16, y: u16, cx: i32, cy: i32) -> (r: bool)
    requires
        0 <= cx <= 1000,
        0 <= cy <= 1000,
    ensures
        r == spec_in_disc(x as int, y as int, cx as int, cy as int, CIRCLE_RADIUS as int),
{
    let dx: i64 = x as i64 - cx as i64;
    let dy: i64 = y as i64 - cy as i64;
    assert(-1000 <= dx <= 65535 && -1000 <= dy <= 65535);
    assert(0 <= dx * dx <= 65535 * 65535) by (nonlinear_arith)
        requires -1000 <= dx <= 65535;
    assert(0 <= dy * dy <= 65535 * 65535) by (nonlinear_arith)
        requires -1000 <= dy <= 65535;
    dx * dx + dy * dy <= 4900
}

/// Returns `true` if `(x, y)` lands inside the left circle.
pub fn left_circle_hit(x: u16, y: u16) -> (r: bool)
    ensures
        r == spec_in_disc(x as int, y as int, LEFT_CIRCLE_CX as int, CIRCLE_CY as int, CIRCLE_RADIUS as int),
{
    disc_hit(x, y, LEFT_CIRCLE_CX, CIRCLE_CY)
}

/// Returns `true` if `(x, y)` lands inside the right circle.
pub fn right_circle_hit(x: u16, y: u16) -> (r: bool)
    ensures
        r == spec_in_disc(x as int, y as int, RIGHT_CIRCLE_CX as int, CIRCLE_CY as int, CIRCLE_RADIUS as int),
{
    disc_hit(x, y, RIGHT_CIRCLE_CX, CIRCLE_CY)
}

// -- Hero pill hit testing ---------------------------------------------------

/// Returns `true` if `(x, y)` lands inside the hero pill's bounding rect.
pub fn hero_pill_hit(x: u16, y: u16) -> (r: bool)
    ensures
        r == (HERO_PILL_X <= x < HERO_PILL_X + HERO_PILL_W && HERO_PILL_Y <= y < HERO_PILL_Y + HERO_PILL_H),
{
    let px = x as i32;
    let py = y as i32;
    px >= HERO_PILL_X && px < HERO_PILL_X + HERO_PILL_W && py >= HERO_PILL_Y && py < HERO_PILL_Y
        + HERO_PILL_H
}

// -- Card list grammar -------------------------------------------------------

/// Horizontal inset of a card from the screen edge.
pub const CARD_MARGIN_X: i32 = 28;

/// Standard card width.
pub const CARD_WIDTH: i32 = SCREEN_W - CARD_MARGIN_X * 2;

/// Standard card height.
pub const CARD_HEIGHT: i32 = 84;

/// Vertical gap between cards in a stack.
pub const CARD_GAP: i32 = 12;

/// Y of the first card in a card-list screen.
pub const FIRST_CARD_Y: i32 = HEADER_TOP + HEADER_HEIGHT + 24;

/// Rect for the `index`th card (from 0) in a standard card-list layout.
pub fn content_card_rect(index: usize) -> (r: Rect)
    requires
        index <= 20_000_000,
    ensures
        r == (Rect {
            x: CARD_MARGIN_X,
            y: (FIRST_CARD_Y + index * (CARD_HEIGHT + CARD_GAP)) as i32,
            width: CARD_WIDTH as u32,
            height: CARD_HEIGHT as u32,
        }),
{
    let y = FIRST_CARD_Y + index as i32 * (CARD_HEIGHT + CARD_GAP);
    Rect { x: CARD_MARGIN_X, y, width: 354, height: 84 }
}

// -- Header icon hit testing -------------------------------------------------

/// Width of the invisible hit target on the left of a legacy header bar.
pub const HEADER_ICON_HIT_WIDTH: i32 = 56;

/// Returns `true` if `(x, y)` lands inside the header bar's left icon
/// region: within the header's rows, left of the icon hit width.
pub fn header_icon_hit(x: u16, y: u16) -> (r: bool)
    ensures
        r == (x < HEADER_ICON_HIT_WIDTH && HEADER_TOP <= y < HEADER_TOP + HEADER_HEIGHT),
{
    let h = header_rect();
    let px = x as i32;
    let py = y as i32;
    px >= h.x && px < h.x + HEADER_ICON_HIT_WIDTH && py >= h.y && py < h.y + h.height as i32
}

// -- VStack vertical-stack cursor --------------------------------------------

/// Side margin of the standard centered content band.
pub const VSTACK_SIDE_MARGIN: i32 = 28;

/// Vertical-stack layout cursor: the next free y plus the horizontal
/// band that slots span. Render and event handlers replay the same call
/// sequence, so both see identical rects.
#[derive(Debug, Clone, Copy)]
pub struct VStack {
    next_y: i32,
    x: i32,
    width: i32,
}

impl VStack {
    pub closed spec fn spec_next_y(&self) -> int {
        self.next_y as int
    }

    pub closed spec fn spec_x(&self) -> int {
        self.x as int
    }

    pub closed spec fn spec_width(&self) -> int {
        self.width as int
    }

    /// Cursor at `top_y` with the standard centered content band.
    pub fn new(top_y: i32) -> (s: Self)
        ensures
            s.spec_next_y() == top_y,
            s.spec_x() == VSTACK_SIDE_MARGIN,
            s.spec_width() == SCREEN_W - VSTACK_SIDE_MARGIN * 2,
    {
        VStack { next_y: top_y, x: VSTACK_SIDE_MARGIN, width: SCREEN_W - VSTACK_SIDE_MARGIN * 2 }
    }

    /// Cursor with a caller-supplied side margin.
    pub fn with_margin(top_y: i32, side_margin: i32) -> (s: Self)
        requires
            i32::MIN <= side_margin * 2 <= i32::MAX,
            i32::MIN <= SCREEN_W - side_margin * 2 <= i32::MAX,
        ensures
            s.spec_next_y() == top_y,
            s.spec_x() == side_margin,
            s.spec_width() == SCREEN_W - side_margin * 2,
    {
        VStack { next_y: top_y, x: side_margin, width: SCREEN_W - side_margin * 2 }
    }

    /// Cursor scoped to the interior of `parent`, inset horizontally by
    /// `inset_x` and starting at `top_y`.
    pub fn inside(parent: Rect, inset_x: i32, top_y: i32) -> (s: Self)
        requires
            i32::MIN <= parent.x + inset_x <= i32::MAX,
            i32::MIN <= inset_x * 2 <= i32::MAX,
            i32::MIN <= (parent.width as i32) - inset_x * 2 <= i32::MAX,
        ensures
            s.spec_next_y() == top_y,
            s.spec_x() == parent.x + inset_x,
            s.spec_width() == (parent.width as i32) - inset_x * 2,
    {
        VStack { next_y: top_y, x: parent.x + inset_x, width: parent.width as i32 - inset_x * 2 }
    }

    /// Current cursor y.
    pub fn cursor_y(&self) -> (y: i32)
        ensures
            y == self.spec_next_y(),
    {
        self.next_y
    }

    /// Advance by `height` and return a full-width rect at that slot.
    pub fn slot(&mut self, height: i32) -> (r: Rect)
        requires
            old(self).spec_next_y() + height <= i32::MAX,
            old(self).spec_next_y() + height >= i32::MIN,
        ensures
            r == (Rect {
                x: old(self).spec_x() as i32,
                y: old(self).spec_next_y() as i32,
                width: old(self).spec_width() as u32,
                height: height as u32,
            }),
            final(self).spec_next_y() == old(self).spec_next_y() + height,
            final(self).spec_x() == old(self).spec_x(),
            final(self).spec_width() == old(self).spec_width(),
    {
        let r = Rect { x: self.x, y: self.next_y, width: self.width as u32, height: height as u32 };
        self.next_y = self.next_y + height;
        r
    }

    /// Advance by `height` and return two side-by-side half-width rects
    /// with `gap_x` between them, left first.
    pub fn pair(&mut self, height: i32, gap_x: i32) -> (r: (Rect, Rect))
        requires
            old(self).spec_next_y() + height <= i32::MAX,
            old(self).spec_next_y() + height >= i32::MIN,
            i32::MIN <= old(self).spec_width() - gap_x <= i32::MAX,
            i32::MIN <= old(self).spec_x() + spec_trunc_div(old(self).spec_width() - gap_x, 2) <= i32::MAX,
            i32::MIN <= old(self).spec_x() + spec_trunc_div(old(self).spec_width() - gap_x, 2) + gap_x
                <= i32::MAX,
        ensures
            ({
                let half = spec_trunc_div(old(self).spec_width() - gap_x, 2);
                &&& r.0 == (Rect {
                    x: old(self).spec_x() as i32,
                    y: old(self).spec_next_y() as i32,
                    width: half as u32,
                    height: height as u32,
                })
                &&& r.1 == (Rect {
                    x: (old(self).spec_x() + half + gap_x) as i32,
                    y: old(self).spec_next_y() as i32,
                    width: half as u32,
                    height: height as u32,
                })
            }),
            final(self).spec_next_y() == old(self).spec_next_y() + height,
            final(self).spec_x() == old(self).spec_x(),
            final(self).spec_width() == old(self).spec_width(),
    {
        let half = (self.width - gap_x) / 2;
        assert(half == spec_trunc_div(self.width - gap_x, 2));
        let left = Rect { x: self.x, y: self.next_y, width: half as u32, height: height as u32 };
        let right = Rect {
            x: self.x + half + gap_x,
            y: self.next_y,
            width: half as u32,
            height: height as u32,
        };
        self.next_y = self.next_y + height;
        (left, right)
    }

    /// Advance by `height` and return `n` evenly-split cells laid out
    /// left to right with `gap_x` between neighbours (the general form
    /// of [`Self::pair`]). With `n == 0` the list is empty.
    pub fn row(&mut self, n: usize, height: i32, gap_x: i32) -> (cells: Vec<Rect>)
        requires
            n <= i32::MAX,
            old(self).spec_next_y() + height <= i32::MAX,
            old(self).spec_next_y() + height >= i32::MIN,
            n > 0 ==> i32::MIN <= gap_x * (n - 1) <= i32::MAX,
            n > 0 ==> i32::MIN <= old(self).spec_width() - gap_x * (n - 1) <= i32::MAX,
            n > 0 ==> i32::MIN <= spec_row_cell_w(old(self).spec_width(), n as int, gap_x as int) + gap_x
                <= i32::MAX,
            n > 0 ==> i32::MIN <= (n - 1) * (spec_row_cell_w(old(self).spec_width(), n as int, gap_x as int)
                + gap_x) <= i32::MAX,
            n > 0 ==> i32::MIN <= old(self).spec_x() + (n - 1) * (spec_row_cell_w(
                old(self).spec_width(),
                n as int,
                gap_x as int,
            ) + gap_x) <= i32::MAX,
        ensures
            cells@.len() == n,
            forall|i: int|
                0 <= i < n ==> #[trigger] cells@[i] == (Rect {
                    x: (old(self).spec_x() + i * (spec_row_cell_w(old(self).spec_width(), n as int, gap_x as int)
                        + gap_x)) as i32,
                    y: old(self).spec_next_y() as i32,
                    width: spec_row_cell_w(old(self).spec_width(), n as int, gap_x as int) as u32,
                    height: height as u32,
                }),
            final(self).spec_next_y() == old(self).spec_next_y() + height,
            final(self).spec_x() == old(self).spec_x(),
            final(self).spec_width() == old(self).spec_width(),
    {
        let mut cells: Vec<Rect> = Vec::new();
        if n == 0 {
            self.next_y = self.next_y + height;
            return cells;
        }
        let count = n as i32;
        let cell_w = (self.width - gap_x * (count - 1)) / count;
        let step = cell_w + gap_x;
        let ghost k = spec_row_cell_w(self.width as int, n as int, gap_x as int);
        assert(cell_w == k);
        let y = self.next_y;
        let mut i: usize = 0;
        while i < n
            invariant
                0 <= i <= n,
                n <= i32::MAX,
                step == k + gap_x,
                cell_w == k,
                y == old(self).spec_next_y(),
                self.x == old(self).spec_x(),
                self.width == old(self).spec_width(),
                self.next_y == old(self).spec_next_y(),
                i32::MIN <= (n - 1) * step <= i32::MAX,
                i32::MIN <= self.x + (n - 1) * step <= i32::MAX,
                cells@.len() == i,
                forall|j: int|
                    0 <= j < i ==> #[trigger] cells@[j] == (Rect {
                        x: (self.x + j * step) as i32,
                        y: y,
                        width: cell_w as u32,
                        height: height as u32,
                    }),
            decreases n - i,
        {
            let ii = i as i32;
            assert(i32::MIN <= ii * step <= i32::MAX && i32::MIN <= self.x + ii * step <= i32::MAX) by (nonlinear_arith)
                requires
                    0 <= ii <= n - 1,
                    i32::MIN <= (n - 1) * step <= i32::MAX,
                    i32::MIN <= self.x + (n - 1) * step <= i32::MAX,
                    i32::MIN <= self.x <= i32::MAX,
                    i32::MIN <= step <= i32::MAX,
            ;
            cells.push(Rect { x: self.x + ii * step, y, width: cell_w as u32, height: height as u32 });
            i = i + 1;
        }
        self.next_y = self.next_y + height;
        cells
    }

    /// Advance vertically without producing a rect.
    pub fn gap(&mut self, height: i32)
        requires
            old(self).spec_next_y() + height <= i32::MAX,
            old(self).spec_next_y() + height >= i32::MIN,
        ensures
            final(self).spec_next_y() == old(self).spec_next_y() + height,
            final(self).spec_x() == old(self).spec_x(),
            final(self).spec_width() == old(self).spec_width(),
    {
        self.next_y = self.next_y + height;
    }
}

/// Integer division rounding toward zero, as Rust's `/` does on signed
/// values.
pub open spec fn spec_trunc_div(a: int, b: int) -> int
    recommends
        b > 0,
{
    if a >= 0 { a / b } else { -((-a) / b) }
}

/// Width of each of `n` cells sharing a band of `width` with `gap` between
/// neighbours.
pub open spec fn spec_row_cell_w(width: int, n: int, gap: int) -> int {
    spec_trunc_div(width - gap * (n - 1), n)
}

// -- ScrollState -------------------------------------------------------------

/// `v` clamped into `lo..=hi` (with `lo <= hi`).
pub open spec fn spec_clamp(v: int, lo: int, hi: int) -> int {
    if v < lo { lo } else if v > hi { hi } else { v }
}

/// Vertical-scroll state for a region whose content can be longer than
/// its viewport: the scroll offset plus the y of the finger during a
/// drag.
#[derive(Debug, Clone, Copy)]
pub struct ScrollState {
    offset: i32,
    last_drag_y: Option<i32>,
}

impl Default for ScrollState {
    fn default() -> (s: Self)
        ensures
            s.spec_offset() == 0,
            s.spec_last_drag_y() is None,
    {
        ScrollState::new()
    }
}

impl ScrollState {
    pub closed spec fn spec_offset(&self) -> int {
        self.offset as int
    }

    pub closed spec fn spec_last_drag_y(&self) -> Option<i32> {
        self.last_drag_y
    }

    /// The state with the given offset and drag position.
    pub closed spec fn spec_of(offset: i32, last_drag_y: Option<i32>) -> ScrollState {
        ScrollState { offset, last_drag_y }
    }

    /// Fresh state: offset 0, no active drag.
    pub fn new() -> (s: Self)
        ensures
            s.spec_offset() == 0,
            s.spec_last_drag_y() is None,
    {
        ScrollState { offset: 0, last_drag_y: None }
    }

    /// Current scroll offset in pixels (0 = top of content).
    pub fn offset(&self) -> (o: i32)
        ensures
            o == self.spec_offset(),
    {
        self.offset
    }

    /// Process a touch position during a drag, with the offset clamped
    /// to `0..=max` (a negative `max` counts as 0). The first call of a
    /// gesture records the starting y and re-clamps the offset; later
    /// calls move the offset against the finger motion. Returns `true`
    /// if the offset changed.
    pub fn drag(&mut self, y: i32, max: i32) -> (changed: bool)
        requires
            old(self).spec_last_drag_y() matches Some(last) ==> {
                &&& i32::MIN <= y - last <= i32::MAX
                &&& i32::MIN <= old(self).spec_offset() - (y - last) <= i32::MAX
            },
        ensures
            ({
                let m = if max < 0 { 0 } else { max as int };
                let target = match old(self).spec_last_drag_y() {
                    None => old(self).spec_offset(),
                    Some(last) => old(self).spec_offset() - (y - last),
                };
                &&& final(self).spec_offset() == spec_clamp(target, 0, m)
                &&& final(self).spec_last_drag_y() == Some(y)
                &&& changed == (final(self).spec_offset() != old(self).spec_offset())
            }),
    {
        let max = if max < 0 { 0 } else { max };
        match self.last_drag_y {
            None => {
                self.last_drag_y = Some(y);
                let new_offset = if self.offset < 0 {
                    0
                } else if self.offset > max {
                    max
                } else {
                    self.offset
                };
                if new_offset != self.offset {
                    self.offset = new_offset;
                    return true;
                }
                false
            },
            Some(last) => {
                let delta = y - last;
                self.last_drag_y = Some(y);
                let moved = self.offset - delta;
                let new_offset = if moved < 0 {
                    0
                } else if moved > max {
                    max
                } else {
                    moved
                };
                if new_offset != self.offset {
                    self.offset = new_offset;
                    true
                } else {
                    false
                }
            },
        }
    }

    /// End drag tracking on release; the offset stays where it is.
    pub fn release(&mut self)
        ensures
            final(self).spec_offset() == old(self).spec_offset(),
            final(self).spec_last_drag_y() is None,
    {
        self.last_drag_y = None;
    }
}

/// A scroll state is determined by its offset and drag position.
pub proof fn lemma_scroll_state_fields(s: ScrollState)
    ensures
        s == ScrollState::spec_of(s.spec_offset() as i32, s.spec_last_drag_y()),
        ScrollState::spec_of(s.spec_offset() as i32, s.spec_last_drag_y()).spec_offset() == s.spec_offset(),
{
}

/// The accessors read back what [`ScrollState::spec_of`] was given.
pub proof fn lemma_scroll_state_of(offset: i32, last: Option<i32>)
    ensures
        ScrollState::spec_of(offset, last).spec_offset() == offset,
        ScrollState::spec_of(offset, last).spec_last_drag_y() == last,
{
}

/// Once a drag has started, the offset always stays within `0..=max`,
/// whatever the finger does.
pub proof fn lemma_drag_offset_in_range(offset: int, target: int, max: int)
    requires
        max >= 0,
    ensures
        0 <= spec_clamp(target, 0, max) <= max,
{
}

} // verus!
