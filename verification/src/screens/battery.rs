//! The battery view's readouts: the charge text and the history
//! sparkline's geometry.

use vstd::prelude::*;

use crate::layout::Rect;
use crate::text::{push_dec, push_pad2, spec_dec, spec_pad2};

verus! {

/// Horizontal inset of the sparkline's plot inside its area.
pub const SPARK_H_INSET: i32 = 24;

/// Vertical inset of the sparkline's plot inside its area.
pub const SPARK_V_INSET: i32 = 6;

/// The charge readout: `P% / V.VVV` truncated to hundredths of a volt
/// (`P% / V.CCV`) with both readings, `P%` with only the percentage,
/// `--` without a percentage.
pub open spec fn spec_battery_readout_text(percent: Option<u8>, mv: Option<u16>) -> Seq<u8> {
    match (percent, mv) {
        (Some(p), Some(v)) => spec_dec(p as int) + seq![37u8, 32u8, 47u8, 32u8] + spec_dec(v as int / 1000) + seq![46u8]
            + spec_pad2((v as int % 1000) / 10) + seq![86u8],
        (Some(p), None) => spec_dec(p as int) + seq![37u8],
        _ => seq![45u8, 45u8],
    }
}

/// Text of the charge readout.
pub fn battery_readout_text(percent: Option<u8>, mv: Option<u16>) -> (t: Vec<u8>)
    ensures
        t@ == spec_battery_readout_text(percent, mv),
{
    let mut t: Vec<u8> = Vec::new();
    match (percent, mv) {
        (Some(p), Some(v)) => {
            push_dec(&mut t, p as u64);
            t.push(37u8);
            t.push(32u8);
            t.push(47u8);
            t.push(32u8);
            push_dec(&mut t, (v / 1000) as u64);
            t.push(46u8);
            push_pad2(&mut t, ((v % 1000) / 10) as u64);
            t.push(86u8);
        },
        (Some(p), None) => {
            push_dec(&mut t, p as u64);
            t.push(37u8);
        },
        _ => {
            t.push(45u8);
            t.push(45u8);
        },
    }
    proof {
        assert(t@ =~= spec_battery_readout_text(percent, mv));
    }
    t
}

/// The plot area inside the sparkline's `area`: inset by
/// [`SPARK_H_INSET`] left and right and [`SPARK_V_INSET`] top and bottom.
pub fn sparkline_plot(area: Rect) -> (p: Rect)
    requires
        area.x + SPARK_H_INSET <= i32::MAX,
        area.y + SPARK_V_INSET <= i32::MAX,
        area.width >= 2 * SPARK_H_INSET,
        area.height >= 2 * SPARK_V_INSET,
        area.width <= i32::MAX,
        area.height <= i32::MAX,
    ensures
        p == (Rect {
            x: (area.x + SPARK_H_INSET) as i32,
            y: (area.y + SPARK_V_INSET) as i32,
            width: (area.width - 2 * SPARK_H_INSET) as u32,
            height: (area.height - 2 * SPARK_V_INSET) as u32,
        }),
{
    Rect {
        x: area.x + SPARK_H_INSET,
        y: area.y + SPARK_V_INSET,
        width: area.width - 48,
        height: area.height - 12,
    }
}

/// Y of a charge level on a plot `height` high starting at `top`: 100 %
/// on the top edge, 0 % on the bottom, levels above 100 % held at the
/// top.
pub open spec fn spec_plot_y(percent: u8, top: int, height: int) -> int {
    let p = if percent < 100 { percent as int } else { 100 };
    top + (100 - p) * height / 100
}

/// Y of a charge level on the plot.
pub fn plot_y(percent: u8, top: i32, height: i32) -> (y: i32)
    requires
        0 <= height,
        100 * height <= i32::MAX,
        top + height <= i32::MAX,
    ensures
        y == spec_plot_y(percent, top as int, height as int),
{
    let p: i32 = if percent < 100 { percent as i32 } else { 100 };
    assert(0 <= (100 - p) * height <= 100 * height) by (nonlinear_arith)
        requires 0 <= p <= 100, 0 <= height;
    assert((100 - p) * height / 100 <= height) by (nonlinear_arith)
        requires 0 <= p <= 100, 0 <= height;
    top + (100 - p) * height / 100
}

/// X of sample `i` of `n`, oldest on the left edge and newest on the
/// right; a lone sample sits in the middle.
pub open spec fn spec_sample_x(i: int, n: int, x0: int, width: int) -> int {
    if n <= 1 { x0 + width / 2 } else { x0 + i * width / (n - 1) }
}

/// The sparkline's points for charge samples `percents` (oldest first)
/// on the plot at `(x0, y0)`, `width` by `height`.
pub fn sparkline_points(percents: &[u8], x0: i32, width: i32, y0: i32, height: i32) -> (p: Vec<(i32, i32)>)
    requires
        0 <= width,
        0 <= height,
        100 * height <= i32::MAX,
        y0 + height <= i32::MAX,
        x0 + width <= i32::MAX,
        percents@.len() <= i32::MAX,
        (percents@.len() - 1) * width <= i32::MAX,
    ensures
        p@.len() == percents@.len(),
        forall|i: int|
            0 <= i < p@.len() ==> #[trigger] p@[i] == (
                spec_sample_x(i, percents@.len() as int, x0 as int, width as int) as i32,
                spec_plot_y(percents@[i], y0 as int, height as int) as i32,
            ),
{
    let n = percents.len();
    let mut p: Vec<(i32, i32)> = Vec::new();
    let mut i: usize = 0;
    while i < n
        invariant
            0 <= i <= n,
            n == percents@.len(),
            0 <= width,
            0 <= height,
            100 * height <= i32::MAX,
            y0 + height <= i32::MAX,
            x0 + width <= i32::MAX,
            n <= i32::MAX,
            (n - 1) * width <= i32::MAX,
            p@.len() == i,
            forall|k: int|
                0 <= k < i ==> #[trigger] p@[k] == (
                    spec_sample_x(k, n as int, x0 as int, width as int) as i32,
                    spec_plot_y(percents@[k], y0 as int, height as int) as i32,
                ),
        decreases n - i,
    {
        let x: i32 = if n <= 1 {
            x0 + width / 2
        } else {
            let ii = i as i32;
            let d = n as i32 - 1;
            assert(0 <= ii * width <= d * width) by (nonlinear_arith)
                requires 0 <= ii <= d, 0 <= width;
            assert((ii * width) as int / (d as int) <= width) by (nonlinear_arith)
                requires 0 <= ii <= d, 0 <= width, d > 0;
            x0 + ii * width / d
        };
        let y = plot_y(percents[i], y0, height);
        p.push((x, y));
        i = i + 1;
    }
    p
}

/// The level that colours each sparkline segment: the lower of its two
/// endpoints, so the line changes colour as soon as it dips into a
/// warning band. A lone sample is drawn as a dot in its own level.
pub open spec fn spec_segment_levels(percents: Seq<u8>) -> Seq<u8> {
    if percents.len() == 1 {
        percents
    } else if percents.len() == 0 {
        Seq::empty()
    } else {
        Seq::new(
            (percents.len() - 1) as nat,
            |i: int| if percents[i] < percents[i + 1] { percents[i] } else { percents[i + 1] },
        )
    }
}

/// Levels colouring the sparkline's segments, oldest first.
pub fn sparkline_segment_levels(percents: &[u8]) -> (l: Vec<u8>)
    ensures
        l@ == spec_segment_levels(percents@),
{
    let n = percents.len();
    let mut l: Vec<u8> = Vec::new();
    if n == 1 {
        l.push(percents[0]);
        proof {
            assert(l@ =~= percents@);
        }
        return l;
    }
    let mut i: usize = 1;
    while i < n
        invariant
            1 <= i <= if n == 0 { 1 } else { n },
            n == percents@.len(),
            n != 1,
            l@.len() == i - 1,
            forall|k: int|
                0 <= k < i - 1 ==> #[trigger] l@[k] == (if percents@[k] < percents@[k + 1] {
                    percents@[k]
                } else {
                    percents@[k + 1]
                }),
        decreases n - i,
    {
        let a = percents[i - 1];
        let b = percents[i];
        l.push(if a < b { a } else { b });
        i = i + 1;
    }
    proof {
        assert(l@ =~= spec_segment_levels(percents@));
    }
    l
}

} // verus!
