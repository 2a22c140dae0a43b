//! Numeric keypad widget: a 3x4 grid of buttons (digits, backspace,
//! confirm) plus the buffer of entered digits. The caller decides what
//! the digits mean (duration, time, date).

use vstd::prelude::*;

verus! {

/// Default top of the button grid.
pub const DEFAULT_TOP: i32 = 150;

/// Button width.
pub const BTN_W: i32 = 90;

/// Button height.
pub const BTN_H: i32 = 52;

/// Horizontal gap between buttons.
pub const BTN_GAP_X: i32 = 10;

/// Vertical gap between buttons.
pub const BTN_GAP_Y: i32 = 8;

/// Total grid width: 3 buttons + 2 gaps.
pub const GRID_W: i32 = 3 * BTN_W + 2 * BTN_GAP_X;

/// Left edge of the grid, `(SCREEN_W - GRID_W) / 2` (horizontally centered).
pub const GRID_X: i32 = 60;

/// Maximum number of digits the buffer can hold.
pub const MAX_DIGITS: usize = 8;

/// Result of a numpad tap.
#[derive(Debug, Clone, Copy, PartialEq, Eq, Structural)]
pub enum NumpadAction {
    /// A digit 0-9 was tapped.
    Digit(u8),
    /// Backspace was tapped.
    Backspace,
    /// Confirm/OK was tapped.
    Confirm,
}

/// What a bounded digit vector holds, first entered first.
pub uninterp spec fn digit_items(v: heapless::Vec<u8, 8>) -> Seq<u8>;

/// `heapless::Vec::new`: an empty vector.
#[verifier::external_body]
fn digits_new() -> (v: heapless::Vec<u8, 8>)
    ensures
        digit_items(v) == Seq::<u8>::empty(),
{
    heapless::Vec::new()
}

/// `heapless::Vec::push`: appends when fewer than 8 items are held,
/// otherwise hands the item back and leaves the vector as it was.
#[verifier::external_body]
fn digits_push(v: &mut heapless::Vec<u8, 8>, d: u8) -> (r: Result<(), u8>)
    ensures
        r is Ok <==> digit_items(*old(v)).len() < 8,
        r is Err ==> r->Err_0 == d,
        digit_items(*old(v)).len() < 8 ==> digit_items(*final(v)) == digit_items(*old(v)).push(d),
        digit_items(*old(v)).len() >= 8 ==> digit_items(*final(v)) == digit_items(*old(v)),
{
    v.push(d)
}

/// `heapless::Vec::pop`: removes and returns the last item, if any.
#[verifier::external_body]
fn digits_pop(v: &mut heapless::Vec<u8, 8>) -> (r: Option<u8>)
    ensures
        digit_items(*old(v)).len() == 0 ==> r is None && digit_items(*final(v)) == digit_items(*old(v)),
        digit_items(*old(v)).len() > 0 ==> r == Some(digit_items(*old(v)).last())
            && digit_items(*final(v)) == digit_items(*old(v)).drop_last(),
{
    v.pop()
}

/// `heapless::Vec::clear`: removes every item.
#[verifier::external_body]
fn digits_clear(v: &mut heapless::Vec<u8, 8>)
    ensures
        digit_items(*final(v)) == Seq::<u8>::empty(),
{
    v.clear()
}

/// `heapless::Vec::as_slice`: the items as a slice; never more than the
/// capacity of 8.
#[verifier::external_body]
fn digits_as_slice(v: &heapless::Vec<u8, 8>) -> (s: &[u8])
    ensures
        s@ == digit_items(*v),
        s@.len() <= 8,
{
    v.as_slice()
}

/// Index of the first non-zero entry of `s`, or `s.len()` if there is none.
pub open spec fn spec_first_nonzero(s: Seq<u8>) -> int
    decreases s.len(),
{
    if s.len() == 0 {
        0
    } else if s[0] != 0 {
        0
    } else {
        1 + spec_first_nonzero(s.drop_first())
    }
}

proof fn lemma_first_nonzero(s: Seq<u8>)
    ensures
        0 <= spec_first_nonzero(s) <= s.len(),
        forall|k: int| 0 <= k < spec_first_nonzero(s) ==> s[k] == 0,
        spec_first_nonzero(s) < s.len() ==> s[spec_first_nonzero(s)] != 0,
    decreases s.len(),
{
    if s.len() > 0 && s[0] == 0 {
        lemma_first_nonzero(s.drop_first());
        assert forall|k: int| 0 <= k < spec_first_nonzero(s) implies s[k] == 0 by {
            if k > 0 {
                assert(s[k] == s.drop_first()[k - 1]);
            }
        }
    }
}

/// The buffer a prefill of `raw` leaves: leading zeros dropped, then at
/// most `max` digits kept.
pub open spec fn spec_prefilled(raw: Seq<u8>, max: int) -> Seq<u8> {
    let rest = raw.skip(spec_first_nonzero(raw));
    if rest.len() <= max { rest } else { rest.take(max) }
}

/// Grid column under `px`, if any.
pub open spec fn spec_col_at(px: int) -> Option<int> {
    if GRID_X <= px < GRID_X + BTN_W {
        Some(0)
    } else if GRID_X + (BTN_W + BTN_GAP_X) <= px < GRID_X + (BTN_W + BTN_GAP_X) + BTN_W {
        Some(1)
    } else if GRID_X + 2 * (BTN_W + BTN_GAP_X) <= px < GRID_X + 2 * (BTN_W + BTN_GAP_X) + BTN_W {
        Some(2)
    } else {
        None
    }
}

/// Grid row under `py` for a grid whose first row starts at `top`, if any.
pub open spec fn spec_row_at(top: int, py: int) -> Option<int> {
    if top <= py < top + BTN_H {
        Some(0)
    } else if top + (BTN_H + BTN_GAP_Y) <= py < top + (BTN_H + BTN_GAP_Y) + BTN_H {
        Some(1)
    } else if top + 2 * (BTN_H + BTN_GAP_Y) <= py < top + 2 * (BTN_H + BTN_GAP_Y) + BTN_H {
        Some(2)
    } else if top + 3 * (BTN_H + BTN_GAP_Y) <= py < top + 3 * (BTN_H + BTN_GAP_Y) + BTN_H {
        Some(3)
    } else {
        None
    }
}

/// The action of the button at `(row, col)`: digits 1-9 on the first
/// three rows, then backspace, 0 and confirm.
pub open spec fn spec_button_action(row: int, col: int) -> NumpadAction {
    if row < 3 {
        NumpadAction::Digit((3 * row + col + 1) as u8)
    } else if col == 0 {
        NumpadAction::Backspace
    } else if col == 1 {
        NumpadAction::Digit(0)
    } else {
        NumpadAction::Confirm
    }
}

/// The action a tap at `(px, py)` selects on a grid starting at `top`.
pub open spec fn spec_hit(top: int, px: int, py: int) -> Option<NumpadAction> {
    match (spec_row_at(top, py), spec_col_at(px)) {
        (Some(r), Some(c)) => Some(spec_button_action(r, c)),
        _ => None,
    }
}

/// Top-left corner of the button at (`row`, `col`).
pub fn button_origin(top_y: i32, row: usize, col: usize) -> (o: (i32, i32))
    requires
        row < 4,
        col < 3,
        top_y + 3 * (BTN_H + BTN_GAP_Y) <= i32::MAX,
    ensures
        o.0 == GRID_X + col * (BTN_W + BTN_GAP_X),
        o.1 == top_y + row * (BTN_H + BTN_GAP_Y),
{
    let x = GRID_X + col as i32 * (BTN_W + BTN_GAP_X);
    let y = top_y + row as i32 * (BTN_H + BTN_GAP_Y);
    (x, y)
}

/// Reusable numeric keypad with a digit buffer.
pub struct Numpad {
    /// Entered digits, left-to-right. Interpreted right-to-left
    /// (calculator style) by the caller.
    pub digits: heapless::Vec<u8, 8>,
    /// Maximum number of digits accepted (at most [`MAX_DIGITS`]).
    max_digits: usize,
    /// Top Y of the first button row.
    top_y: i32,
}

impl Numpad {
    /// The entered digits.
    pub closed spec fn spec_digits(&self) -> Seq<u8> {
        digit_items(self.digits)
    }

    pub closed spec fn spec_max_digits(&self) -> int {
        self.max_digits as int
    }

    pub closed spec fn spec_top_y(&self) -> int {
        self.top_y as int
    }

    /// The limit never exceeds the buffer's capacity.
    pub closed spec fn wf(&self) -> bool {
        self.max_digits <= MAX_DIGITS
    }

    /// A keypad accepting up to `max_digits` digits (capped at
    /// [`MAX_DIGITS`]), with an empty buffer and the default grid top.
    pub fn new(max_digits: usize) -> (n: Self)
        ensures
            n.wf(),
            n.spec_digits() == Seq::<u8>::empty(),
            n.spec_max_digits() == (if max_digits < MAX_DIGITS { max_digits as int } else { MAX_DIGITS as int }),
            n.spec_top_y() == DEFAULT_TOP,
    {
        let max = if max_digits < MAX_DIGITS { max_digits } else { MAX_DIGITS };
        Numpad { digits: digits_new(), max_digits: max, top_y: DEFAULT_TOP }
    }

    /// The same keypad with its button grid starting at `top_y`.
    pub fn with_top(self, top_y: i32) -> (n: Self)
        ensures
            n.wf() == self.wf(),
            n.spec_digits() == self.spec_digits(),
            n.spec_max_digits() == self.spec_max_digits(),
            n.spec_top_y() == top_y,
    {
        let mut s = self;
        s.top_y = top_y;
        s
    }

    /// The entered digits.
    pub fn digit_slice(&self) -> (s: &[u8])
        ensures
            s@ == self.spec_digits(),
            s@.len() <= MAX_DIGITS,
    {
        digits_as_slice(&self.digits)
    }

    /// Clear all entered digits.
    pub fn clear(&mut self)
        ensures
            final(self).spec_digits() == Seq::<u8>::empty(),
            final(self).spec_max_digits() == old(self).spec_max_digits(),
            final(self).spec_top_y() == old(self).spec_top_y(),
            final(self).wf() == old(self).wf(),
    {
        digits_clear(&mut self.digits);
    }

    /// Replace the buffer with `raw`, leading zeros stripped, keeping at
    /// most the digit limit.
    pub fn prefill(&mut self, raw: &[u8])
        requires
            old(self).wf(),
        ensures
            final(self).wf(),
            final(self).spec_digits() == spec_prefilled(raw@, old(self).spec_max_digits()),
            final(self).spec_max_digits() == old(self).spec_max_digits(),
            final(self).spec_top_y() == old(self).spec_top_y(),
    {
        digits_clear(&mut self.digits);
        let ghost start = spec_first_nonzero(raw@);
        proof {
            lemma_first_nonzero(raw@);
        }
        let mut i: usize = 0;
        while i < raw.len() && raw[i] == 0
            invariant
                0 <= i <= start,
                0 <= start <= raw@.len(),
                forall|k: int| 0 <= k < start ==> raw@[k] == 0,
                start < raw@.len() ==> raw@[start] != 0,
            decreases raw@.len() - i,
        {
            i = i + 1;
        }
        assert(i == start);
        while i < raw.len() && digits_as_slice(&self.digits).len() < self.max_digits
            invariant
                start <= i <= raw@.len(),
                0 <= start <= raw@.len(),
                self.max_digits == old(self).spec_max_digits(),
                self.top_y == old(self).spec_top_y(),
                self.max_digits <= MAX_DIGITS,
                self.spec_digits() == raw@.subrange(start, i as int),
                self.spec_digits().len() <= self.max_digits,
            decreases raw@.len() - i,
        {
            let _ = digits_push(&mut self.digits, raw[i]);
            proof {
                assert(self.spec_digits() =~= raw@.subrange(start, i + 1));
            }
            i = i + 1;
        }
        proof {
            let rest = raw@.skip(start);
            if i == raw.len() && self.spec_digits().len() <= self.max_digits && rest.len() <= self.max_digits {
                assert(self.spec_digits() =~= rest);
            } else {
                assert(self.spec_digits().len() == self.max_digits);
                assert(self.spec_digits() =~= rest.take(self.max_digits as int));
            }
        }
    }

    /// The action of the button under `(x, y)`, or `None` if the tap
    /// missed the grid (or hit one of its blank cells).
    pub fn hit_test(&self, x: u16, y: u16) -> (r: Option<NumpadAction>)
        requires
            self.spec_top_y() + 3 * (BTN_H + BTN_GAP_Y) + BTN_H <= i32::MAX,
        ensures
            r == spec_hit(self.spec_top_y(), x as int, y as int),
    {
        let px = x as i32;
        let py = y as i32;
        let mut row: usize = 0;
        while row < 4
            invariant
                0 <= row <= 4,
                px == x,
                py == y,
                self.top_y + 3 * (BTN_H + BTN_GAP_Y) + BTN_H <= i32::MAX,
                forall|r: int, c: int|
                    0 <= r < row && 0 <= c < 3 ==> !(spec_row_at(self.top_y as int, py as int) == Some(r)
                        && spec_col_at(px as int) == Some(c)),
            decreases 4 - row,
        {
            let mut col: usize = 0;
            while col < 3
                invariant
                    0 <= row < 4,
                    0 <= col <= 3,
                    px == x,
                    py == y,
                    self.top_y + 3 * (BTN_H + BTN_GAP_Y) + BTN_H <= i32::MAX,
                    forall|r: int, c: int|
                        0 <= r < row && 0 <= c < 3 ==> !(spec_row_at(self.top_y as int, py as int) == Some(r)
                            && spec_col_at(px as int) == Some(c)),
                    forall|c: int|
                        0 <= c < col ==> !(spec_row_at(self.top_y as int, py as int) == Some(row as int)
                            && spec_col_at(px as int) == Some(c)),
                decreases 3 - col,
            {
                let (bx, by) = button_origin(self.top_y, row, col);
                if px >= bx && px < bx + BTN_W && py >= by && py < by + BTN_H {
                    assert(spec_row_at(self.top_y as int, py as int) == Some(row as int));
                    assert(spec_col_at(px as int) == Some(col as int));
                    if row == 3 && col == 0 {
                        return Some(NumpadAction::Backspace);
                    } else if row == 3 && col == 2 {
                        return Some(NumpadAction::Confirm);
                    } else if row == 3 {
                        return Some(NumpadAction::Digit(0));
                    } else {
                        let d = (3 * row + col + 1) as u8;
                        return Some(NumpadAction::Digit(d));
                    }
                }
                col = col + 1;
            }
            row = row + 1;
        }
        None
    }

    /// Apply a tap to the buffer: a digit is appended while below the
    /// limit, backspace drops the last digit, confirm is left to the
    /// caller. Returns `true` if the buffer changed.
    pub fn apply(&mut self, action: NumpadAction) -> (changed: bool)
        requires
            old(self).wf(),
        ensures
            final(self).wf(),
            final(self).spec_max_digits() == old(self).spec_max_digits(),
            final(self).spec_top_y() == old(self).spec_top_y(),
            (final(self).spec_digits(), changed) == spec_apply(old(self).spec_digits(), old(self).spec_max_digits(), action),
    {
        match action {
            NumpadAction::Digit(d) => {
                if digits_as_slice(&self.digits).len() < self.max_digits {
                    let _ = digits_push(&mut self.digits, d);
                    true
                } else {
                    false
                }
            },
            NumpadAction::Backspace => digits_pop(&mut self.digits).is_some(),
            NumpadAction::Confirm => false,
        }
    }

    /// The buffer right-aligned in a [`MAX_DIGITS`]-wide array, padded
    /// with zeros on the left to the digit limit (and beyond it to the
    /// array's width).
    pub fn padded(&self) -> (p: [u8; MAX_DIGITS])
        requires
            self.wf(),
        ensures
            forall|j: int|
                0 <= j < MAX_DIGITS ==> #[trigger] p[j] == spec_padded_at(
                    self.spec_digits(),
                    self.spec_max_digits(),
                    j,
                ),
    {
        let mut p = [0u8; MAX_DIGITS];
        let digits = digits_as_slice(&self.digits);
        let n = digits.len();
        let offset = if self.max_digits > n { self.max_digits - n } else { 0 };
        let mut i: usize = 0;
        while i < n
            invariant
                0 <= i <= n,
                n == digits@.len(),
                n <= 8,
                digits@ == self.spec_digits(),
                self.max_digits <= MAX_DIGITS,
                offset == (if self.max_digits > n { self.max_digits - n } else { 0 }),
                forall|j: int|
                    0 <= j < MAX_DIGITS ==> #[trigger] p[j] == (if offset <= j < offset + i {
                        digits@[j - offset]
                    } else {
                        0u8
                    }),
            decreases n - i,
        {
            p[offset + i] = digits[i];
            i = i + 1;
        }
        p
    }
}

/// The buffer after applying a tap, and whether it changed: a digit is
/// appended while below the limit, backspace drops the last digit,
/// confirm changes nothing.
pub open spec fn spec_apply(digits: Seq<u8>, max: int, action: NumpadAction) -> (Seq<u8>, bool) {
    match action {
        NumpadAction::Digit(d) => {
            if digits.len() < max { (digits.push(d), true) } else { (digits, false) }
        },
        NumpadAction::Backspace => {
            if digits.len() > 0 { (digits.drop_last(), true) } else { (digits, false) }
        },
        NumpadAction::Confirm => (digits, false),
    }
}

/// Entry `j` of the right-aligned buffer: digit `j - offset` where the
/// buffer sits, zero elsewhere.
pub open spec fn spec_padded_at(digits: Seq<u8>, max: int, j: int) -> u8 {
    let offset = if max > digits.len() { max - digits.len() } else { 0 };
    if offset <= j < offset + digits.len() { digits[j - offset] } else { 0 }
}

/// A digit typed and then erased leaves the buffer as it was.
pub proof fn lemma_digit_then_backspace(digits: Seq<u8>, d: u8)
    ensures
        digits.push(d).drop_last() == digits,
{
    assert(digits.push(d).drop_last() =~= digits);
}

} // verus!
