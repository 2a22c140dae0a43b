//! CO5300 AMOLED panel: the RGB565 framebuffer the UI draws into, and
//! the panel command parameters derived from it. Pixels are stored big
//! endian, two bytes per pixel, row after row of [`WIDTH`] pixels. The
//! QSPI transfers that push the framebuffer and commands to the panel
//! are made by the caller.

use vstd::prelude::*;

verus! {

/// Panel width in pixels.
pub const WIDTH: u16 = 410;

/// Panel height in pixels.
pub const HEIGHT: u16 = 502;

/// Framebuffer size in bytes (two per pixel).
pub const FB_BYTES: usize = 410 * 502 * 2;

/// Column offset of the visible area in the controller's RAM.
pub const COL_OFFSET: u16 = 22;

/// Row offset of the visible area in the controller's RAM.
pub const ROW_OFFSET: u16 = 0;

/// Enter sleep.
pub const CMD_SLPIN: u8 = 0x10;
/// Leave sleep.
pub const CMD_SLPOUT: u8 = 0x11;
/// Display off.
pub const CMD_DISPOFF: u8 = 0x28;
/// Display on.
pub const CMD_DISPON: u8 = 0x29;
/// Column address set.
pub const CMD_CASET: u8 = 0x2A;
/// Row address set.
pub const CMD_RASET: u8 = 0x2B;
/// Memory write.
pub const CMD_RAMWR: u8 = 0x2C;
/// Memory access control (rotation / mirroring).
pub const CMD_MADCTL: u8 = 0x36;
/// Pixel format.
pub const CMD_PIXFMT: u8 = 0x3A;
/// Display brightness.
pub const CMD_BRIGHTNESS: u8 = 0x51;

/// RGB565 black.
pub const BLACK: u16 = 0x0000;
/// RGB565 white.
pub const WHITE: u16 = 0xFFFF;
/// RGB565 red.
pub const RED: u16 = 0xF800;
/// RGB565 green.
pub const GREEN: u16 = 0x07E0;
/// RGB565 blue.
pub const BLUE: u16 = 0x001F;

/// Panel orientation (MADCTL mirror bits).
#[derive(Debug, Clone, Copy, PartialEq, Eq, Structural)]
pub enum Rotation {
    Normal,
    MirrorX,
    MirrorY,
    Deg180,
}

impl Default for Rotation {
    fn default() -> (r: Self)
        ensures
            r == Rotation::Normal,
    {
        Rotation::Normal
    }
}

impl Rotation {
    /// The MADCTL value: MX is bit 6, MY bit 7.
    pub open spec fn spec_bits(self) -> u8 {
        match self {
            Rotation::Normal => 0x00,
            Rotation::MirrorX => 0x40,
            Rotation::MirrorY => 0x80,
            Rotation::Deg180 => 0xC0,
        }
    }

    /// The MADCTL value of the orientation.
    pub fn bits(self) -> (b: u8)
        ensures
            b == self.spec_bits(),
    {
        match self {
            Rotation::Normal => 0x00,
            Rotation::MirrorX => 0x40,
            Rotation::MirrorY => 0x80,
            Rotation::Deg180 => 0xC0,
        }
    }
}

/// The start-up commands and their parameters, in order: QSPI write
/// opcode enabled, 16-bit pixels, tearing signal on, brightness control
/// on, brightness about 31 %, high-brightness mode at maximum.
pub fn init_commands() -> (c: Vec<(u8, u8)>)
    ensures
        c@ == seq![(0xC4u8, 0x80u8), (CMD_PIXFMT, 0x55u8), (0x35u8, 0x00u8), (0x53u8, 0x20u8), (CMD_BRIGHTNESS, 80u8), (0x63u8, 0xFFu8)],
{
    let c = vec![(0xC4u8, 0x80u8), (CMD_PIXFMT, 0x55u8), (0x35u8, 0x00u8), (0x53u8, 0x20u8), (CMD_BRIGHTNESS, 80u8), (0x63u8, 0xFFu8)];
    assert(c@ =~= seq![(0xC4u8, 0x80u8), (CMD_PIXFMT, 0x55u8), (0x35u8, 0x00u8), (0x53u8, 0x20u8), (CMD_BRIGHTNESS, 80u8), (0x63u8, 0xFFu8)]);
    c
}

/// The big-endian bytes of a 16-bit value.
pub open spec fn spec_be(v: u16) -> (u8, u8) {
    ((v / 256) as u8, (v % 256) as u8)
}

fn be_bytes(v: u16) -> (b: (u8, u8))
    ensures
        b == spec_be(v),
{
    let hi = (v >> 8) as u8;
    let lo = (v & 0xFF) as u8;
    assert(hi == v / 256 && lo == v % 256) by (bit_vector)
        requires hi == (v >> 8) as u8, lo == (v & 0xFF) as u8;
    (hi, lo)
}

/// CASET and RASET parameters selecting the window of `w` x `h` pixels
/// at `(x, y)`: first and last column (shifted by the RAM offset) and
/// first and last row, each big endian.
pub fn addr_window(x: u16, y: u16, w: u16, h: u16) -> (p: ([u8; 4], [u8; 4]))
    requires
        w >= 1,
        h >= 1,
        x + w <= u16::MAX,
        y + h <= u16::MAX,
        x + w - 1 + COL_OFFSET <= u16::MAX,
        y + h - 1 + ROW_OFFSET <= u16::MAX,
    ensures
        ({
            let (x0h, x0l) = spec_be((x + COL_OFFSET) as u16);
            let (x1h, x1l) = spec_be((x + w - 1 + COL_OFFSET) as u16);
            let (y0h, y0l) = spec_be((y + ROW_OFFSET) as u16);
            let (y1h, y1l) = spec_be((y + h - 1 + ROW_OFFSET) as u16);
            &&& p.0@ == seq![x0h, x0l, x1h, x1l]
            &&& p.1@ == seq![y0h, y0l, y1h, y1l]
        }),
{
    let x0 = x + COL_OFFSET;
    let x1 = x + w - 1 + COL_OFFSET;
    let y0 = y + ROW_OFFSET;
    let y1 = y + h - 1 + ROW_OFFSET;
    let (a, b) = be_bytes(x0);
    let (c, d) = be_bytes(x1);
    let (e, f) = be_bytes(y0);
    let (g, k) = be_bytes(y1);
    let caset = [a, b, c, d];
    let raset = [e, f, g, k];
    assert(caset@ =~= seq![a, b, c, d]);
    assert(raset@ =~= seq![e, f, g, k]);
    (caset, raset)
}

/// The RGB565 value of 5-6-5 bit channels.
pub fn rgb565_raw(r: u8, g: u8, b: u8) -> (v: u16)
    requires
        r < 32,
        g < 64,
        b < 32,
    ensures
        v == r * 2048 + g * 32 + b,
{
    let v = ((r as u16) << 11) | ((g as u16) << 5) | (b as u16);
    assert(v == r * 2048 + g * 32 + b) by (bit_vector)
        requires r < 32, g < 64, b < 32, v == ((r as u16) << 11) | ((g as u16) << 5) | (b as u16);
    v
}

/// Framebuffer index of pixel `(col, row)`.
pub open spec fn spec_pixel(row: int, col: int) -> int {
    row * (WIDTH as int) + col
}

/// Whether pixel index `p` is one of those a fill of `w` columns from
/// column `x`, over rows `y0..y1`, writes (columns past the panel edge
/// run on into the next row).
pub open spec fn spec_filled(p: int, x: int, w: int, y0: int, y1: int) -> bool {
    exists|r: int, c: int| y0 <= r < y1 && x <= c < x + w && p == #[trigger] spec_pixel(r, c)
}

/// Whether pixel index `p` is one of columns `x..x1` of row `row`.
pub open spec fn spec_filled_row(p: int, x: int, x1: int, row: int) -> bool {
    exists|c: int| x <= c < x1 && p == #[trigger] spec_pixel(row, c)
}

/// Framebuffer byte `k` after a fill: the colour's high or low byte on a
/// filled pixel, unchanged elsewhere.
pub open spec fn spec_fill_byte(old_byte: u8, k: int, covered: bool, color: u16) -> u8 {
    if covered {
        if k % 2 == 0 { spec_be(color).0 } else { spec_be(color).1 }
    } else {
        old_byte
    }
}

/// Pixel index of the `i`-th pixel of a `w`-wide rectangle at `(x, y)`,
/// in row-major order.
pub open spec fn spec_raw_pixel(x: int, y: int, w: int, i: int) -> int {
    spec_pixel(y + i / w, x + i % w)
}

/// The framebuffer after writing the first `n` pixels of a raw block,
/// in order (a later pixel on the same index wins).
pub open spec fn spec_raw_writes(fb: Seq<u8>, x: int, y: int, w: int, pixels: Seq<u16>, n: int) -> Seq<u8>
    decreases n,
{
    if n <= 0 {
        fb
    } else {
        let prev = spec_raw_writes(fb, x, y, w, pixels, n - 1);
        let p = spec_raw_pixel(x, y, w, n - 1);
        prev.update(2 * p, spec_be(pixels[n - 1]).0).update(2 * p + 1, spec_be(pixels[n - 1]).1)
    }
}

/// Panel position of entry `j` of a row-major colour stream filling an
/// area `w` wide at `(x0, y0)`.
pub open spec fn spec_stream_pos(x0: int, y0: int, w: int, j: int) -> (int, int) {
    (x0 + j % w, y0 + j / w)
}

/// Whether `(px, py)` lies on the panel.
pub open spec fn spec_on_panel(px: int, py: int) -> bool {
    0 <= px < WIDTH && 0 <= py < HEIGHT
}

/// The framebuffer after the first `n` colours of a stream filling an
/// area `w` wide at `(x0, y0)`: each colour lands on its position when
/// that lies on the panel and is dropped otherwise.
pub open spec fn spec_stream_writes(fb: Seq<u8>, x0: int, y0: int, w: int, colors: Seq<u16>, n: int) -> Seq<u8>
    decreases n,
{
    if n <= 0 {
        fb
    } else {
        let prev = spec_stream_writes(fb, x0, y0, w, colors, n - 1);
        let (px, py) = spec_stream_pos(x0, y0, w, n - 1);
        if spec_on_panel(px, py) {
            prev.update(2 * spec_pixel(py, px), spec_be(colors[n - 1]).0).update(
                2 * spec_pixel(py, px) + 1,
                spec_be(colors[n - 1]).1,
            )
        } else {
            prev
        }
    }
}

/// Whether the first `n` colours of a stream filling an area `w` wide at
/// `(x0, y0)` include the one for position `(c, r)`.
pub open spec fn spec_stream_covers(x0: int, y0: int, w: int, n: int, c: int, r: int) -> bool {
    0 <= c - x0 < w && r >= y0 && (r - y0) * w + (c - x0) < n
}

/// Framebuffer byte `b` after the first `n` colours of such a stream: the
/// high (even byte) or low (odd byte) half of the colour for its pixel
/// when the stream reaches that pixel, else the byte as it was.
pub open spec fn spec_stream_byte(fb: Seq<u8>, x0: int, y0: int, w: int, colors: Seq<u16>, n: int, b: int) -> u8 {
    let p = b / 2;
    let c = p % 410;
    let r = p / 410;
    if spec_stream_covers(x0, y0, w, n, c, r) {
        let v = colors[(r - y0) * w + (c - x0)];
        if b % 2 == 0 { spec_be(v).0 } else { spec_be(v).1 }
    } else {
        fb[b]
    }
}

/// Within the panel, a raw block's writes are those of a colour stream
/// over the same area: every pixel of the block lies on the panel.
pub proof fn lemma_raw_is_stream(fb: Seq<u8>, x: int, y: int, w: int, h: int, pixels: Seq<u16>, n: int)
    requires
        0 <= x,
        0 <= y,
        w > 0,
        x + w <= WIDTH,
        y + h <= HEIGHT,
        0 <= n <= w * h,
    ensures
        spec_raw_writes(fb, x, y, w, pixels, n) == spec_stream_writes(fb, x, y, w, pixels, n),
    decreases n,
{
    if n > 0 {
        lemma_raw_is_stream(fb, x, y, w, h, pixels, n - 1);
        let i = n - 1;
        vstd::arithmetic::div_mod::lemma_fundamental_div_mod(i, w);
        assert(0 <= i % w < w && 0 <= i / w < h) by (nonlinear_arith)
            requires i == w * (i / w) + (i % w), 0 <= i < w * h, w > 0;
        assert(spec_on_panel(x + i % w, y + i / w));
    }
}

/// The stream's writes, byte by byte: every framebuffer byte holds its
/// pixel's colour from the stream if the stream reached that pixel, and
/// is unchanged otherwise (each colour lands on a pixel of its own).
pub proof fn lemma_stream_writes_bytes(fb: Seq<u8>, x0: int, y0: int, w: int, colors: Seq<u16>, n: int)
    requires
        w > 0,
        0 <= n <= colors.len(),
        fb.len() == FB_BYTES,
    ensures
        spec_stream_writes(fb, x0, y0, w, colors, n).len() == FB_BYTES,
        forall|b: int|
            0 <= b < FB_BYTES ==> #[trigger] spec_stream_writes(fb, x0, y0, w, colors, n)[b] == spec_stream_byte(
                fb,
                x0,
                y0,
                w,
                colors,
                n,
                b,
            ),
    decreases n,
{
    if n > 0 {
        lemma_stream_writes_bytes(fb, x0, y0, w, colors, n - 1);
        let prev = spec_stream_writes(fb, x0, y0, w, colors, n - 1);
        let i = n - 1;
        let q = i / w;
        let rr = i % w;
        vstd::arithmetic::div_mod::lemma_fundamental_div_mod(i, w);
        assert(i == q * w + rr && 0 <= rr < w) by (nonlinear_arith)
            requires i == w * (i / w) + (i % w), q == i / w, rr == i % w, w > 0;
        let px = x0 + rr;
        let py = y0 + q;
        assert(spec_stream_pos(x0, y0, w, i) == (px, py));
        let on = spec_on_panel(px, py);
        assert forall|b: int| 0 <= b < FB_BYTES implies #[trigger] spec_stream_writes(fb, x0, y0, w, colors, n)[b]
            == spec_stream_byte(fb, x0, y0, w, colors, n, b) by {
            let p = b / 2;
            let c = p % 410;
            let r = p / 410;
            vstd::arithmetic::div_mod::lemma_fundamental_div_mod(p, 410);
            assert(0 <= r < 502 && 0 <= c < 410);
            if spec_stream_covers(x0, y0, w, n, c, r) && (r - y0) * w + (c - x0) == i {
                vstd::arithmetic::div_mod::lemma_fundamental_div_mod_converse(i, w, r - y0, c - x0);
                assert(c == px && r == py);
                assert(on);
                assert(p == spec_pixel(py, px));
            } else if on && p == spec_pixel(py, px) {
                vstd::arithmetic::div_mod::lemma_fundamental_div_mod_converse(p, 410, py, px);
                assert(c == px && r == py);
                assert((r - y0) * w + (c - x0) == i);
            }
            assert(spec_stream_covers(x0, y0, w, n, c, r) && (r - y0) * w + (c - x0) == i <==> (on && p == spec_pixel(py, px)));
            assert(spec_stream_covers(x0, y0, w, n, c, r) && (r - y0) * w + (c - x0) != i ==> spec_stream_covers(
                x0,
                y0,
                w,
                n - 1,
                c,
                r,
            ));
            assert(spec_stream_covers(x0, y0, w, n - 1, c, r) ==> spec_stream_covers(x0, y0, w, n, c, r));
            if on {
                assert(spec_pixel(py, px) <= 501 * 410 + 409) by (nonlinear_arith)
                    requires 0 <= py <= 501, 0 <= px <= 409;
                assert(spec_pixel(py, px) >= 0) by (nonlinear_arith)
                    requires 0 <= py, 0 <= px;
            }
        }
    }
}

/// CO5300 driver: the QSPI bus, the reset line, and the framebuffer.
pub struct CO5300<'fb, B, RST> {
    bus: B,
    reset: RST,
    framebuffer: &'fb mut [u8],
}

impl<'fb, B, RST> CO5300<'fb, B, RST> {
    /// The framebuffer bytes.
    pub closed spec fn spec_fb(&self) -> Seq<u8> {
        self.framebuffer@
    }

    /// A driver over `bus` and `reset` drawing into `framebuffer`, which
    /// must hold exactly one frame.
    pub fn new(bus: B, reset: RST, framebuffer: &'fb mut [u8]) -> (d: Self)
        requires
            old(framebuffer)@.len() == FB_BYTES,
        ensures
            d.spec_fb() == old(framebuffer)@,
            d.spec_bus() == bus,
            d.spec_reset() == reset,
    {
        CO5300 { bus, reset, framebuffer }
    }

    /// The framebuffer, to be pushed to the panel.
    pub fn framebuffer(&self) -> (f: &[u8])
        ensures
            f@ == self.spec_fb(),
    {
        self.framebuffer
    }

    pub closed spec fn spec_bus(&self) -> B {
        self.bus
    }

    /// The reset line the driver holds.
    pub closed spec fn spec_reset(&self) -> RST {
        self.reset
    }

    /// The bus, for the transfers to the panel.
    pub fn bus_mut(&mut self) -> (b: &mut B)
        ensures
            *b == old(self).spec_bus(),
            final(self).spec_fb() == old(self).spec_fb(),
            final(self).spec_bus() == *final(b),
    {
        &mut self.bus
    }

    /// Fill a `w` x `h` rectangle at `(x, y)` with `color`.
    pub fn fill_solid(&mut self, x: u16, y: u16, w: u16, h: u16, color: u16)
        requires
            x + w <= u16::MAX,
            y + h <= u16::MAX,
            w > 0 && h > 0 ==> 2 * spec_pixel(y + h - 1, x + w - 1) + 1 < old(self).spec_fb().len(),
        ensures
            final(self).spec_fb().len() == old(self).spec_fb().len(),
            forall|k: int|
                0 <= k < old(self).spec_fb().len() ==> #[trigger] final(self).spec_fb()[k] == spec_fill_byte(
                    old(self).spec_fb()[k],
                    k,
                    spec_filled(k / 2, x as int, w as int, y as int, y + h),
                    color,
                ),
    {
        let (hi, lo) = be_bytes(color);
        let ghost fb0 = self.framebuffer@;
        let ghost len = fb0.len();
        let mut row: u16 = y;
        while row < y + h
            invariant
                y <= row <= y + h,
                y + h <= u16::MAX,
                x + w <= u16::MAX,
                (hi, lo) == spec_be(color),
                self.framebuffer@.len() == len,
                len == fb0.len(),
                w > 0 && h > 0 ==> 2 * spec_pixel(y + h - 1, x + w - 1) + 1 < len,
                forall|k: int|
                    0 <= k < len ==> #[trigger] self.framebuffer@[k] == spec_fill_byte(
                        fb0[k],
                        k,
                        spec_filled(k / 2, x as int, w as int, y as int, row as int),
                        color,
                    ),
            decreases y + h - row,
        {
            let row_base = row as usize * 410;
            let mut col: u16 = x;
            while col < x + w
                invariant
                    y <= row < y + h,
                    x <= col <= x + w,
                    y + h <= u16::MAX,
                    x + w <= u16::MAX,
                    row_base == row * 410,
                    (hi, lo) == spec_be(color),
                    self.framebuffer@.len() == len,
                    len == fb0.len(),
                    w > 0 && h > 0 ==> 2 * spec_pixel(y + h - 1, x + w - 1) + 1 < len,
                    forall|k: int|
                        0 <= k < len ==> #[trigger] self.framebuffer@[k] == spec_fill_byte(
                            fb0[k],
                            k,
                            spec_filled(k / 2, x as int, w as int, y as int, row as int) || spec_filled_row(
                                k / 2,
                                x as int,
                                col as int,
                                row as int,
                            ),
                            color,
                        ),
                decreases x + w - col,
            {
                proof {
                    assert(spec_pixel(row as int, col as int) <= spec_pixel(y + h - 1, x + w - 1)) by (nonlinear_arith)
                        requires
                            row <= y + h - 1,
                            col <= x + w - 1,
                    ;
                }
                let idx = (row_base + col as usize) * 2;
                let ghost before = self.framebuffer@;
                self.framebuffer[idx] = hi;
                self.framebuffer[idx + 1] = lo;
                proof {
                    let p = spec_pixel(row as int, col as int);
                    assert(idx == 2 * p);
                    assert forall|k: int| 0 <= k < len implies #[trigger] self.framebuffer@[k] == spec_fill_byte(
                        fb0[k],
                        k,
                        spec_filled(k / 2, x as int, w as int, y as int, row as int) || spec_filled_row(
                            k / 2,
                            x as int,
                            col + 1,
                            row as int,
                        ),
                        color,
                    ) by {
                        if k == 2 * p || k == 2 * p + 1 {
                            assert(k / 2 == p);
                            assert(spec_filled_row(k / 2, x as int, col + 1, row as int)) by {
                                assert(p == spec_pixel(row as int, col as int));
                            }
                        } else {
                            assert(k / 2 != p);
                            assert(before[k] == self.framebuffer@[k]);
                            if spec_filled_row(k / 2, x as int, col + 1, row as int) {
                                let c = choose|c: int| x <= c < col + 1 && k / 2 == #[trigger] spec_pixel(row as int, c);
                                assert(c != col);
                                assert(spec_filled_row(k / 2, x as int, col as int, row as int));
                            }
                        }
                    }
                }
                col = col + 1;
            }
            proof {
                assert forall|k: int| 0 <= k < len implies #[trigger] self.framebuffer@[k] == spec_fill_byte(
                    fb0[k],
                    k,
                    spec_filled(k / 2, x as int, w as int, y as int, row + 1),
                    color,
                ) by {
                    let a = spec_filled(k / 2, x as int, w as int, y as int, row as int);
                    let b = spec_filled_row(k / 2, x as int, col as int, row as int);
                    let n = spec_filled(k / 2, x as int, w as int, y as int, row + 1);
                    if b {
                        let c = choose|c: int| x <= c < col && k / 2 == #[trigger] spec_pixel(row as int, c);
                        assert(spec_pixel(row as int, c) == k / 2);
                    }
                    if a {
                        let (r, c) = choose|r: int, c: int|
                            y <= r < row && x <= c < x + w && k / 2 == #[trigger] spec_pixel(r, c);
                        assert(spec_pixel(r, c) == k / 2);
                    }
                    if n {
                        let (r, c) = choose|r: int, c: int|
                            y <= r < row + 1 && x <= c < x + w && k / 2 == #[trigger] spec_pixel(r, c);
                        if r < row {
                            assert(spec_pixel(r, c) == k / 2);
                            assert(a);
                        } else {
                            assert(spec_pixel(row as int, c) == k / 2);
                            assert(b);
                        }
                    }
                }
            }
            row = row + 1;
        }
    }

    /// Write a block of raw pixels into the `w` x `h` rectangle at
    /// `(x, y)`, row by row, stopping early when `pixels` runs out.
    pub fn draw_raw(&mut self, x: u16, y: u16, w: u16, h: u16, pixels: &[u16])
        requires
            x + w <= u16::MAX,
            y + h <= u16::MAX,
            forall|i: int|
                0 <= i < w * h && i < pixels@.len() ==> 2 * #[trigger] spec_raw_pixel(x as int, y as int, w as int, i) + 1
                    < old(self).spec_fb().len(),
        ensures
            final(self).spec_fb() == spec_raw_writes(
                old(self).spec_fb(),
                x as int,
                y as int,
                w as int,
                pixels@,
                if w * h < pixels@.len() { w * h } else { pixels@.len() as int },
            ),
            old(self).spec_fb().len() == FB_BYTES && x + w <= WIDTH && y + h <= HEIGHT ==> forall|b: int|
                0 <= b < FB_BYTES ==> #[trigger] final(self).spec_fb()[b] == spec_stream_byte(
                    old(self).spec_fb(),
                    x as int,
                    y as int,
                    w as int,
                    pixels@,
                    if w * h < pixels@.len() { w * h } else { pixels@.len() as int },
                    b,
                ),
    {
        let ghost fb0 = self.framebuffer@;
        let ghost total = if w * h < pixels@.len() { w * h } else { pixels@.len() as int };
        let mut src: usize = 0;
        let mut row: u16 = y;
        while row < y + h && src < pixels.len()
            invariant
                y <= row <= y + h,
                y + h <= u16::MAX,
                x + w <= u16::MAX,
                src == (row - y) * w || (src == pixels@.len() && src <= (row - y) * w),
                src <= pixels@.len(),
                forall|i: int|
                    0 <= i < w * h && i < pixels@.len() ==> 2 * #[trigger] spec_raw_pixel(x as int, y as int, w as int, i)
                        + 1 < fb0.len(),
                self.framebuffer@ == spec_raw_writes(fb0, x as int, y as int, w as int, pixels@, src as int),
            decreases y + h - row,
        {
            let row_base = row as usize * 410;
            let mut col: u16 = x;
            while col < x + w && src < pixels.len()
                invariant
                    y <= row < y + h,
                    x <= col <= x + w,
                    y + h <= u16::MAX,
                    x + w <= u16::MAX,
                    row_base == row * 410,
                    src == (row - y) * w + (col - x),
                    src <= pixels@.len(),
                    forall|i: int|
                        0 <= i < w * h && i < pixels@.len() ==> 2 * #[trigger] spec_raw_pixel(
                            x as int,
                            y as int,
                            w as int,
                            i,
                        ) + 1 < fb0.len(),
                    self.framebuffer@ == spec_raw_writes(fb0, x as int, y as int, w as int, pixels@, src as int),
                decreases x + w - col,
            {
                proof {
                    lemma_raw_index(x as int, y as int, w as int, h as int, row as int, col as int, src as int);
                    assert forall|i: int| 0 <= i < src implies 2 * #[trigger] spec_raw_pixel(
                        x as int,
                        y as int,
                        w as int,
                        i,
                    ) + 1 < fb0.len() by {
                        assert(i < w * h && i < pixels@.len());
                    }
                    lemma_raw_writes_len(fb0, x as int, y as int, w as int, pixels@, src as int);
                }
                let px = pixels[src];
                let (hi, lo) = be_bytes(px);
                let idx = (row_base + col as usize) * 2;
                self.framebuffer[idx] = hi;
                self.framebuffer[idx + 1] = lo;
                src = src + 1;
                col = col + 1;
            }
            proof {
                if col == x + w {
                    assert((row - y) * w + w == (row + 1 - y) * w) by (nonlinear_arith);
                } else {
                    assert(src == pixels@.len());
                    assert((row - y) * w + (col - x) <= (row + 1 - y) * w) by (nonlinear_arith)
                        requires
                            col < x + w,
                            x <= col,
                    ;
                }
            }
            row = row + 1;
        }
        proof {
            if src == pixels@.len() {
                assert(src <= (row - y) * w);
                assert((row - y) * w <= h * w) by (nonlinear_arith)
                    requires
                        row <= y + h,
                        y <= row,
                ;
                assert(w * h == h * w) by (nonlinear_arith);
            } else {
                assert(row == y + h);
                assert(src == h * w);
                assert(w * h == h * w) by (nonlinear_arith);
            }
            assert(src == total);
            if fb0.len() == FB_BYTES && x + w <= WIDTH && y + h <= HEIGHT {
                if w > 0 {
                    assert(total <= w * h);
                    lemma_raw_is_stream(fb0, x as int, y as int, w as int, h as int, pixels@, total);
                    lemma_stream_writes_bytes(fb0, x as int, y as int, w as int, pixels@, total);
                } else {
                    assert(w * h == 0) by (nonlinear_arith)
                        requires w == 0;
                    assert(total == 0);
                }
            }
        }
    }

    /// Fill the `width` x `height` area at `(x0, y0)` from `colors` in
    /// row-major order: each colour whose position lies on the panel is
    /// written there, the others are skipped, and the fill stops when the
    /// colours or the area run out.
    pub fn fill_contiguous(&mut self, x0: i32, y0: i32, width: u32, height: u32, colors: &[u16])
        requires
            old(self).spec_fb().len() == FB_BYTES,
        ensures
            final(self).spec_fb() == spec_stream_writes(
                old(self).spec_fb(),
                x0 as int,
                y0 as int,
                width as int,
                colors@,
                if width * height < colors@.len() { width * height } else { colors@.len() as int },
            ),
            forall|b: int|
                0 <= b < FB_BYTES ==> #[trigger] final(self).spec_fb()[b] == spec_stream_byte(
                    old(self).spec_fb(),
                    x0 as int,
                    y0 as int,
                    width as int,
                    colors@,
                    if width * height < colors@.len() { width * height } else { colors@.len() as int },
                    b,
                ),
    {
        let ghost fb0 = self.framebuffer@;
        assert(0 <= width * height <= u64::MAX) by (nonlinear_arith)
            requires width <= u32::MAX, height <= u32::MAX;
        assert(width == 0 ==> width * height == 0) by (nonlinear_arith);
        let area: u64 = width as u64 * height as u64;
        let n: usize = if area < colors.len() as u64 { area as usize } else { colors.len() };
        let mut j: usize = 0;
        let mut col: u32 = 0;
        let mut row: u32 = 0;
        while j < n
            invariant
                0 <= j <= n,
                n == (if width * height < colors@.len() { width * height } else { colors@.len() as int }),
                n <= colors@.len(),
                j < n ==> width > 0,
                width > 0 ==> col < width,
                j == row * width + col,
                self.framebuffer@.len() == FB_BYTES,
                self.framebuffer@ == spec_stream_writes(fb0, x0 as int, y0 as int, width as int, colors@, j as int),
            decreases n - j,
        {
            proof {
                vstd::arithmetic::div_mod::lemma_fundamental_div_mod_converse(
                    j as int,
                    width as int,
                    row as int,
                    col as int,
                );
                assert(row <= j) by (nonlinear_arith)
                    requires j == row * width + col, width > 0, col >= 0, row >= 0;
                assert(row < height) by (nonlinear_arith)
                    requires j == row * width + col, width > 0, col >= 0, row >= 0, j < width * height;
            }
            let px: i64 = x0 as i64 + col as i64;
            let py: i64 = y0 as i64 + row as i64;
            if px >= 0 && px < 410 && py >= 0 && py < 502 {
                self.draw_pixel(px as u16, py as u16, colors[j]);
            }
            j = j + 1;
            if col + 1 < width {
                col = col + 1;
            } else {
                proof {
                    assert(col == width - 1);
                    assert(j == (row + 1) * width) by (nonlinear_arith)
                        requires j == row * width + col + 1, col == width - 1;
                }
                col = 0;
                row = row + 1;
            }
        }
        proof {
            if width > 0 {
                lemma_stream_writes_bytes(fb0, x0 as int, y0 as int, width as int, colors@, n as int);
            } else {
                assert forall|b: int| 0 <= b < FB_BYTES implies #[trigger] self.framebuffer@[b] == spec_stream_byte(
                    fb0,
                    x0 as int,
                    y0 as int,
                    width as int,
                    colors@,
                    n as int,
                    b,
                ) by {}
            }
        }
    }

    /// Set the pixel at `(x, y)` to `color`; points off the panel are
    /// ignored.
    pub fn draw_pixel(&mut self, x: u16, y: u16, color: u16)
        requires
            old(self).spec_fb().len() == FB_BYTES,
        ensures
            x < WIDTH && y < HEIGHT ==> final(self).spec_fb() == old(self).spec_fb().update(
                2 * spec_pixel(y as int, x as int),
                spec_be(color).0,
            ).update(2 * spec_pixel(y as int, x as int) + 1, spec_be(color).1),
            !(x < WIDTH && y < HEIGHT) ==> final(self).spec_fb() == old(self).spec_fb(),
    {
        if x < WIDTH && y < HEIGHT {
            proof {
                assert(spec_pixel(y as int, x as int) <= 501 * 410 + 409) by (nonlinear_arith)
                    requires
                        y <= 501,
                        x <= 409,
                ;
            }
            let idx = (y as usize * 410 + x as usize) * 2;
            let (hi, lo) = be_bytes(color);
            self.framebuffer[idx] = hi;
            self.framebuffer[idx + 1] = lo;
        }
    }
}

impl<'fb, B, RST> CO5300<'fb, B, RST> {
    /// The reset line, for the caller to drive: high is inactive, low
    /// resets the panel.
    pub fn reset_mut(&mut self) -> (r: &mut RST)
        ensures
            *r == old(self).spec_reset(),
            final(self).spec_fb() == old(self).spec_fb(),
            final(self).spec_bus() == old(self).spec_bus(),
            final(self).spec_reset() == *final(r),
    {
        &mut self.reset
    }
}

proof fn lemma_raw_index(x: int, y: int, w: int, h: int, row: int, col: int, src: int)
    requires
        y <= row < y + h,
        x <= col < x + w,
        src == (row - y) * w + (col - x),
    ensures
        0 <= src < w * h,
        spec_raw_pixel(x, y, w, src) == spec_pixel(row, col),
{
    assert(0 <= src < w * h) by (nonlinear_arith)
        requires
            0 <= row - y < h,
            0 <= col - x < w,
            src == (row - y) * w + (col - x),
    ;
    vstd::arithmetic::div_mod::lemma_fundamental_div_mod_converse(src, w, row - y, col - x);
}

proof fn lemma_raw_writes_len(fb: Seq<u8>, x: int, y: int, w: int, pixels: Seq<u16>, n: int)
    requires
        x >= 0,
        y >= 0,
        w > 0,
        forall|i: int| 0 <= i < n ==> 2 * #[trigger] spec_raw_pixel(x, y, w, i) + 1 < fb.len(),
    ensures
        spec_raw_writes(fb, x, y, w, pixels, n).len() == fb.len(),
    decreases n,
{
    if n > 0 {
        lemma_raw_writes_len(fb, x, y, w, pixels, n - 1);
        let i = n - 1;
        assert(2 * spec_raw_pixel(x, y, w, i) + 1 < fb.len());
        assert(spec_raw_pixel(x, y, w, i) >= 0) by (nonlinear_arith)
            requires
                x >= 0,
                y >= 0,
                w > 0,
                i >= 0,
        {
            assert(i / w >= 0);
            assert(i % w >= 0);
        }
    }
}

/// A one-pixel fill sets exactly that pixel's two bytes.
pub proof fn lemma_fill_single_pixel(x: u16, y: u16, k: int)
    requires
        x + 1 <= u16::MAX,
        y + 1 <= u16::MAX,
    ensures
        spec_filled(k / 2, x as int, 1, y as int, y + 1) <==> k / 2 == spec_pixel(y as int, x as int),
{
    if spec_filled(k / 2, x as int, 1, y as int, y + 1) {
        let (r, c) = choose|r: int, c: int| y <= r < y + 1 && x <= c < x + 1 && k / 2 == #[trigger] spec_pixel(r, c);
        assert(r == y && c == x);
    }
    if k / 2 == spec_pixel(y as int, x as int) {
        assert(spec_pixel(y as int, x as int) == k / 2);
    }
}

} // verus!
