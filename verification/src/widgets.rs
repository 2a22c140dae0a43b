//! Widget vocabulary shared by screens: header icons, button variants and
//! the header back-chevron hit zone.

use vstd::prelude::*;

use crate::layout::{spec_trunc_div, Rect};

verus! {

/// Height of the Nightwatch header.
pub const HEADER_H: i32 = 28;

/// Hit-target width for the header back chevron.
pub const HEADER_ICON_HIT_W: i32 = 110;

/// Vertical slack on the header hit zone, above and below.
pub const HEADER_ICON_HIT_V_SLACK: i32 = 12;

/// Height of the top status bar drawn on every non-watch-face screen.
pub const STATUS_BAR_H: i32 = 18;

/// Width of the home-indicator bar.
pub const HOME_INDICATOR_W: i32 = 56;

/// Height (thickness) of the home-indicator bar.
pub const HOME_INDICATOR_H: i32 = 2;

/// Which icon to draw on the left side of a header bar.
#[derive(Debug, Clone, Copy, PartialEq, Eq, Structural)]
pub enum HeaderIcon {
    /// No icon.
    Nothing,
    Close,
    Back,
}

/// Variant of a chamfered button.
#[derive(Debug, Clone, Copy, PartialEq, Eq, Structural)]
pub enum ButtonVariant {
    /// Filled accent background: the primary action.
    Primary,
    /// Outline only: the cancel / non-destructive action.
    Outline,
}

/// Which of a screen's two colours a flashing readout shows: its accent,
/// or the danger colour.
#[derive(Debug, Clone, Copy, PartialEq, Eq, Structural)]
pub enum FlashTone {
    Accent,
    Danger,
}

/// Whether `(px, py)` falls in the back-chevron zone of a header whose
/// rect starts at `(hx, hy)` with height `hh`.
pub open spec fn spec_header_icon_hit(px: int, py: int, hx: int, hy: int, hh: int) -> bool {
    &&& hx <= px < hx + HEADER_ICON_HIT_W
    &&& hy - HEADER_ICON_HIT_V_SLACK <= py < hy + hh + HEADER_ICON_HIT_V_SLACK
}

/// Returns `true` if `(x, y)` lands in the back-chevron zone of the
/// header drawn in `header_rect`: the left [`HEADER_ICON_HIT_W`] pixels,
/// with [`HEADER_ICON_HIT_V_SLACK`] extra above and below.
pub fn header_icon_hit(x: u16, y: u16, header_rect: Rect) -> (r: bool)
    ensures
        r == spec_header_icon_hit(
            x as int,
            y as int,
            header_rect.x as int,
            header_rect.y as int,
            (header_rect.height as i32) as int,
        ),
{
    let px = x as i64;
    let py = y as i64;
    let hx = header_rect.x as i64;
    let hy = header_rect.y as i64;
    let hh = header_rect.height as i32 as i64;
    px >= hx && px < hx + 110 && py >= hy - 12 && py < hy + hh + 12
}

/// Height of one settings-style row.
pub const ROW_H: i32 = 52;

/// Horizontal padding inside a row (left and right edges).
pub const ROW_PAD: i32 = 18;

/// Icon column width, its own right padding included; the label starts
/// where the column ends.
pub const ROW_ICON_COL_W: i32 = 40;

/// Height of a row label's line box.
pub const ROW_LABEL_H: i32 = 14;

/// Toggle switch width.
pub const TOGGLE_W: i32 = 32;

/// Toggle switch height.
pub const TOGGLE_H: i32 = 16;

/// Side of the toggle's square pill.
pub const TOGGLE_PILL: i32 = 12;

/// The kind of control at the right end of a row.
#[derive(Debug, Clone, Copy, PartialEq, Eq, Structural)]
pub enum RowControlKind {
    /// A right-pointing chevron: "tap to navigate".
    Chevron,
    /// An on/off toggle switch.
    Toggle,
    /// A short right-aligned text.
    Inline,
}

/// Where the parts of a settings row go.
///
/// `control_x`/`control_y` is, for a chevron, its tip (the two arms run
/// 6 px back to 5 px above and below it); for a toggle, its top-left
/// corner; for inline text, the right edge and top of the text.
#[derive(Debug, Clone, Copy, PartialEq, Eq, Structural)]
pub struct RowLayout {
    /// Centre of the 16 px icon.
    pub icon_cx: i32,
    /// Vertical centre of the row, shared by the icon and the chevron.
    pub center_y: i32,
    /// Top-left corner of the label.
    pub label_x: i32,
    pub label_y: i32,
    pub control_x: i32,
    pub control_y: i32,
    /// The hairline along the bottom: from `rule_x0` to `rule_x1` on `rule_y`.
    pub rule_x0: i32,
    pub rule_x1: i32,
    pub rule_y: i32,
}

/// `v` is a 32-bit signed value.
pub open spec fn spec_fits_i32(v: int) -> bool {
    i32::MIN <= v <= i32::MAX
}

/// The row's vertical centre: its top plus half its height (as the
/// signed width a drawing target takes), rounded toward zero.
pub open spec fn spec_row_center_y(rect: Rect) -> int {
    rect.y + spec_trunc_div((rect.height as i32) as int, 2)
}

/// The row's inner right edge: right side less the padding.
pub open spec fn spec_row_right(rect: Rect) -> int {
    rect.x + (rect.width as i32) - ROW_PAD
}

/// Every intermediate value of laying out `rect` with `kind` is a 32-bit
/// coordinate.
pub open spec fn spec_row_fits(rect: Rect, kind: RowControlKind) -> bool {
    let w = (rect.width as i32) as int;
    let h = (rect.height as i32) as int;
    let cy = spec_row_center_y(rect);
    let right = spec_row_right(rect);
    &&& spec_fits_i32(rect.x + ROW_PAD + ROW_ICON_COL_W)
    &&& spec_fits_i32(cy)
    &&& spec_fits_i32(cy - ROW_LABEL_H / 2)
    &&& spec_fits_i32(rect.y + h)
    &&& spec_fits_i32(rect.y + h - 1)
    &&& spec_fits_i32(rect.x + w)
    &&& spec_fits_i32(rect.x + w - 1)
    &&& spec_fits_i32(right)
    &&& match kind {
        RowControlKind::Chevron => spec_fits_i32(right - 6) && spec_fits_i32(cy - 5) && spec_fits_i32(cy + 5),
        RowControlKind::Toggle => spec_fits_i32(right - TOGGLE_W) && spec_fits_i32(cy - TOGGLE_H / 2),
        RowControlKind::Inline => true,
    }
}

/// The layout of a row drawn in `rect`: icon centred 8 px into the
/// padded icon column, label after the column and centred on its line
/// box, control right-aligned against the padding, hairline along the
/// last pixel row.
pub open spec fn spec_row_layout(rect: Rect, kind: RowControlKind) -> RowLayout {
    let w = (rect.width as i32) as int;
    let h = (rect.height as i32) as int;
    let cy = spec_row_center_y(rect);
    let right = spec_row_right(rect);
    RowLayout {
        icon_cx: (rect.x + ROW_PAD + 8) as i32,
        center_y: cy as i32,
        label_x: (rect.x + ROW_PAD + ROW_ICON_COL_W) as i32,
        label_y: (cy - ROW_LABEL_H / 2) as i32,
        control_x: (match kind {
            RowControlKind::Toggle => right - TOGGLE_W,
            _ => right,
        }) as i32,
        control_y: (match kind {
            RowControlKind::Chevron => cy,
            RowControlKind::Toggle => cy - TOGGLE_H / 2,
            RowControlKind::Inline => cy - ROW_LABEL_H / 2,
        }) as i32,
        rule_x0: rect.x,
        rule_x1: (rect.x + w - 1) as i32,
        rule_y: (rect.y + h - 1) as i32,
    }
}

/// Lay out one settings-style row inside `rect`.
pub fn row_layout(rect: Rect, kind: RowControlKind) -> (l: RowLayout)
    requires
        spec_row_fits(rect, kind),
    ensures
        l == spec_row_layout(rect, kind),
{
    let x = rect.x;
    let y = rect.y;
    let w = rect.width as i32;
    let h = rect.height as i32;
    let cy = y + h / 2;
    let right = x + w - ROW_PAD;
    let (control_x, control_y) = match kind {
        RowControlKind::Chevron => (right, cy),
        RowControlKind::Toggle => (right - TOGGLE_W, cy - TOGGLE_H / 2),
        RowControlKind::Inline => (right, cy - ROW_LABEL_H / 2),
    };
    RowLayout {
        icon_cx: x + ROW_PAD + 8,
        center_y: cy,
        label_x: x + ROW_PAD + ROW_ICON_COL_W,
        label_y: cy - ROW_LABEL_H / 2,
        control_x,
        control_y,
        rule_x0: x,
        rule_x1: x + w - 1,
        rule_y: y + h - 1,
    }
}

/// Top-left corner of a toggle's pill: flush right (1 px inset) when
/// on, flush left when off, vertically centred.
pub fn toggle_pill(top_x: i32, top_y: i32, on: bool) -> (p: (i32, i32))
    requires
        on ==> spec_fits_i32(top_x + TOGGLE_W),
        !on ==> spec_fits_i32(top_x + 1),
        spec_fits_i32(top_y + (TOGGLE_H - TOGGLE_PILL) / 2),
    ensures
        p.0 == (if on { top_x + TOGGLE_W - TOGGLE_PILL - 1 } else { top_x + 1 }),
        p.1 == top_y + (TOGGLE_H - TOGGLE_PILL) / 2,
{
    let px = if on { top_x + TOGGLE_W - TOGGLE_PILL - 1 } else { top_x + 1 };
    (px, top_y + (TOGGLE_H - TOGGLE_PILL) / 2)
}

} // verus!
