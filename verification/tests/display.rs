use app_core::co5300::{self, Rotation, CO5300, FB_BYTES};

#[test]
fn fill_solid_writes_rect_big_endian() {
    let mut fb = vec![0u8; FB_BYTES];
    let mut d = CO5300::new((), (), &mut fb);
    d.fill_solid(1, 2, 2, 1, 0xF800);
    let f = d.framebuffer();
    let at = |x: usize, y: usize| (f[(y * 410 + x) * 2], f[(y * 410 + x) * 2 + 1]);
    assert_eq!(at(1, 2), (0xF8, 0x00));
    assert_eq!(at(2, 2), (0xF8, 0x00));
    assert_eq!(at(3, 2), (0, 0));
    assert_eq!(at(1, 1), (0, 0));
    assert_eq!(at(0, 2), (0, 0));
}

#[test]
fn fill_solid_whole_panel_clears() {
    let mut fb = vec![0u8; FB_BYTES];
    let mut d = CO5300::new((), (), &mut fb);
    d.fill_solid(0, 0, 410, 502, 0x1234);
    assert!(d.framebuffer().chunks(2).all(|c| c == [0x12, 0x34]));
}

#[test]
fn draw_raw_stops_when_pixels_run_out() {
    let mut fb = vec![0u8; FB_BYTES];
    let mut d = CO5300::new((), (), &mut fb);
    d.draw_raw(408, 0, 2, 2, &[0xAAAA, 0xBBBB, 0xCCCC]);
    let f = d.framebuffer();
    assert_eq!(&f[816..820], &[0xAA, 0xAA, 0xBB, 0xBB]);
    assert_eq!(&f[(410 + 408) * 2..(410 + 408) * 2 + 4], &[0xCC, 0xCC, 0, 0]);
}

#[test]
fn draw_pixel_ignores_off_panel_points() {
    let mut fb = vec![0u8; FB_BYTES];
    let mut d = CO5300::new((), (), &mut fb);
    d.draw_pixel(409, 501, 0x07E0);
    d.draw_pixel(410, 0, 0xFFFF);
    d.draw_pixel(0, 502, 0xFFFF);
    let f = d.framebuffer();
    assert_eq!(&f[FB_BYTES - 2..], &[0x07, 0xE0]);
    assert!(f[..FB_BYTES - 2].iter().all(|&b| b == 0));
}

#[test]
fn window_and_color_encoding() {
    let (caset, raset) = co5300::addr_window(0, 0, 410, 502);
    assert_eq!(caset, [0x00, 22, 0x01, 0xAF]);
    assert_eq!(raset, [0x00, 0x00, 0x01, 0xF5]);
    assert_eq!(co5300::rgb565_raw(31, 0, 0), 0xF800);
    assert_eq!(co5300::rgb565_raw(0, 63, 0), 0x07E0);
    assert_eq!(co5300::rgb565_raw(0, 0, 31), 0x001F);
    assert_eq!(Rotation::Deg180.bits(), 0xC0);
    assert_eq!(Rotation::default(), Rotation::Normal);
    assert_eq!(co5300::init_commands()[1], (0x3A, 0x55));
}

#[test]
fn fill_contiguous_clips_the_stream() {
    let mut fb = vec![0u8; FB_BYTES];
    let mut d = CO5300::new((), (), &mut fb);
    // A 3 x 2 area hanging off the left edge: column -1 is dropped.
    d.fill_contiguous(-1, 5, 3, 2, &[0x1111, 0x2222, 0x3333, 0x4444, 0x5555, 0x6666, 0x7777]);
    let f = d.framebuffer();
    let at = |x: usize, y: usize| (f[(y * 410 + x) * 2], f[(y * 410 + x) * 2 + 1]);
    assert_eq!(at(0, 5), (0x22, 0x22));
    assert_eq!(at(1, 5), (0x33, 0x33));
    assert_eq!(at(0, 6), (0x55, 0x55));
    assert_eq!(at(1, 6), (0x66, 0x66));
    assert_eq!(at(2, 5), (0, 0));
    assert_eq!(at(0, 7), (0, 0));
}

#[test]
fn fill_contiguous_stops_when_colours_run_out() {
    let mut fb = vec![0u8; FB_BYTES];
    let mut d = CO5300::new((), (), &mut fb);
    d.fill_contiguous(408, 501, 4, 4, &[0xABCD, 0x1234, 0x5678]);
    let f = d.framebuffer();
    let at = |x: usize, y: usize| (f[(y * 410 + x) * 2], f[(y * 410 + x) * 2 + 1]);
    assert_eq!(at(408, 501), (0xAB, 0xCD));
    assert_eq!(at(409, 501), (0x12, 0x34));
}

#[test]
fn co5300_hands_out_its_reset_line() {
    let mut fb = vec![0u8; FB_BYTES];
    let mut d = CO5300::new(7u8, 3u8, &mut fb);
    *d.reset_mut() = 4;
    assert_eq!(*d.reset_mut(), 4);
    assert_eq!(*d.bus_mut(), 7);
}
