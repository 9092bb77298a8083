//! Wire-level tests of the register operations against the simulated
//! bus: every test runs an operation and compares the recorded frames
//! byte for byte.

use tftmc043::{ColorMode, ER5517, Error, Frame, PanelConfig, Rect, SimBus, SimPin};
use tftmc043::color::clamp_channels;

fn wr(v: &mut Vec<Frame>, tag: u8, val: u8) {
    v.push(Frame::Write { tag, val });
}

fn rw(v: &mut Vec<Frame>, addr: u8, val: u8) {
    wr(v, 0x00, addr);
    wr(v, 0x80, val);
}

fn rmw(v: &mut Vec<Frame>, addr: u8, read: u8, val: u8) {
    wr(v, 0x00, addr);
    v.push(Frame::Exchange { tag: 0xC0, sent: 0x00, recv: read });
    wr(v, 0x80, val);
}

fn stat(v: &mut Vec<Frame>, s: u8) {
    v.push(Frame::Exchange { tag: 0x40, sent: 0x00, recv: s });
}

#[test]
fn register_write_emits_select_then_data() {
    let mut d = ER5517::new(SimBus::new(vec![]), SimPin::new());
    assert!(d.register_write(0x2A, 0x5C).is_ok());
    let (bus, pin) = d.release();
    let mut expected: Vec<Frame> = Vec::new();
    rw(&mut expected, 0x2A, 0x5C);
    assert_eq!(bus.frames(), &expected);
    // each frame is one chip-select-scoped transaction: low then high
    assert_eq!(pin.levels(), &vec![false, true, false, true]);
}

#[test]
fn status_read_returns_second_byte_verbatim() {
    let mut d = ER5517::new(SimBus::new(vec![0xAB]), SimPin::new());
    let s = d.status_read();
    assert!(matches!(s, Ok(0xAB)));
    let (bus, _) = d.release();
    assert_eq!(bus.frames(), &vec![Frame::Exchange { tag: 0x40, sent: 0x00, recv: 0xAB }]);
}

#[test]
fn data_read_returns_second_byte_verbatim() {
    let mut d = ER5517::new(SimBus::new(vec![0x7F]), SimPin::new());
    let v = d.data_read();
    assert!(matches!(v, Ok(0x7F)));
    let (bus, _) = d.release();
    assert_eq!(bus.frames(), &vec![Frame::Exchange { tag: 0xC0, sent: 0x00, recv: 0x7F }]);
}

#[test]
fn clamp_in_range_unchanged() {
    // 16-bit mode: 5/6/5 channels in range are only shifted, not altered
    assert_eq!(clamp_channels(ColorMode::SixteenBit, 10, 20, 10), (10 << 3, 20 << 2, 10 << 3));
    assert_eq!(clamp_channels(ColorMode::TwentyFourBit, 1, 2, 3), (1, 2, 3));
}

#[test]
fn clamp_saturates_to_max() {
    assert_eq!(clamp_channels(ColorMode::SixteenBit, 255, 255, 255), (31 << 3, 63 << 2, 31 << 3));
    assert_eq!(clamp_channels(ColorMode::EightBit, 255, 255, 255), (7 << 5, 7 << 5, 3 << 6));
}

#[test]
fn clamp_idempotent() {
    // clamping an already-clamped (in-range) channel returns it unchanged
    let once = clamp_channels(ColorMode::TwentyFourBit, 200, 100, 50);
    let twice = clamp_channels(ColorMode::TwentyFourBit, once.0, once.1, once.2);
    assert_eq!(once, twice);
    // and the 16-bit maxima are fixed points of the clamp step
    assert_eq!(clamp_channels(ColorMode::SixteenBit, 31, 63, 31), (31 << 3, 63 << 2, 31 << 3));
}

#[test]
fn set_color_mode_writes_once_then_noop() {
    let mut d = ER5517::new(SimBus::new(vec![0x00, 0x00]), SimPin::new());
    assert!(d.set_color_mode(ColorMode::SixteenBit).is_ok());
    let mut expected: Vec<Frame> = Vec::new();
    rmw(&mut expected, 0x5E, 0x00, 0x01);
    rmw(&mut expected, 0x10, 0x00, 0x04);
    assert_eq!(d.color_mode(), ColorMode::SixteenBit);
    // second call with the same mode: no register write at all
    assert!(d.set_color_mode(ColorMode::SixteenBit).is_ok());
    let (bus, _) = d.release();
    assert_eq!(bus.frames(), &expected);
}

#[test]
fn color_bars_sets_and_clears_bit() {
    let mut d = ER5517::new(SimBus::new(vec![0x05, 0x25]), SimPin::new());
    assert!(d.color_bars(true).is_ok());
    assert!(d.color_bars(false).is_ok());
    let (bus, _) = d.release();
    let mut expected: Vec<Frame> = Vec::new();
    rmw(&mut expected, 0x12, 0x05, 0x25);
    rmw(&mut expected, 0x12, 0x25, 0x05);
    assert_eq!(bus.frames(), &expected);
}

#[test]
fn display_on_preserves_other_bits() {
    let mut d = ER5517::new(SimBus::new(vec![0x0C]), SimPin::new());
    assert!(d.on(true).is_ok());
    let (bus, _) = d.release();
    let mut expected: Vec<Frame> = Vec::new();
    rmw(&mut expected, 0x12, 0x0C, 0x4C);
    assert_eq!(bus.frames(), &expected);
}

#[test]
fn goto_pixel_writes_cursor_pair() {
    let mut d = ER5517::new(SimBus::new(vec![]), SimPin::new());
    assert!(d.goto_pixel(0x1234, 0x0056).is_ok());
    let (bus, _) = d.release();
    let mut expected: Vec<Frame> = Vec::new();
    rw(&mut expected, 0x5F, 0x34);
    rw(&mut expected, 0x60, 0x12);
    rw(&mut expected, 0x61, 0x56);
    rw(&mut expected, 0x62, 0x00);
    assert_eq!(bus.frames(), &expected);
}

#[test]
fn active_window_writes_origin_then_size() {
    let mut d = ER5517::new(SimBus::new(vec![]), SimPin::new());
    assert!(d.active_window(1, 2, 800, 480).is_ok());
    let (bus, _) = d.release();
    let mut expected: Vec<Frame> = Vec::new();
    rw(&mut expected, 0x56, 1);
    rw(&mut expected, 0x57, 0);
    rw(&mut expected, 0x58, 2);
    rw(&mut expected, 0x59, 0);
    rw(&mut expected, 0x5A, 0x20);
    rw(&mut expected, 0x5B, 0x03);
    rw(&mut expected, 0x5C, 0xE0);
    rw(&mut expected, 0x5D, 0x01);
    assert_eq!(bus.frames(), &expected);
}

#[test]
fn main_image_writes_address_width_offsets() {
    let mut d = ER5517::new(SimBus::new(vec![]), SimPin::new());
    assert!(d.main_image(0x0A0B0C0D, 3, 4, 800).is_ok());
    let (bus, _) = d.release();
    let mut expected: Vec<Frame> = Vec::new();
    rw(&mut expected, 0x20, 0x0D);
    rw(&mut expected, 0x21, 0x0C);
    rw(&mut expected, 0x22, 0x0B);
    rw(&mut expected, 0x23, 0x0A);
    rw(&mut expected, 0x24, 0x20);
    rw(&mut expected, 0x25, 0x03);
    rw(&mut expected, 0x26, 0x03);
    rw(&mut expected, 0x27, 0x00);
    rw(&mut expected, 0x28, 0x04);
    rw(&mut expected, 0x29, 0x00);
    assert_eq!(bus.frames(), &expected);
}

#[test]
fn canvas_image_writes_address_then_width() {
    let mut d = ER5517::new(SimBus::new(vec![]), SimPin::new());
    assert!(d.canvas_image(0, 480).is_ok());
    let (bus, _) = d.release();
    let mut expected: Vec<Frame> = Vec::new();
    rw(&mut expected, 0x50, 0);
    rw(&mut expected, 0x51, 0);
    rw(&mut expected, 0x52, 0);
    rw(&mut expected, 0x53, 0);
    rw(&mut expected, 0x54, 0xE0);
    rw(&mut expected, 0x55, 0x01);
    assert_eq!(bus.frames(), &expected);
}

#[test]
fn set_brightness_configures_pwm_channel() {
    let mut d = ER5517::new(SimBus::new(vec![0x00, 0x00, 0x00]), SimPin::new());
    assert!(d.set_brightness(42).is_ok());
    let (bus, _) = d.release();
    let mut expected: Vec<Frame> = Vec::new();
    rmw(&mut expected, 0x85, 0x00, 0x08);
    rw(&mut expected, 0x84, 19);
    rmw(&mut expected, 0x85, 0x00, 0x00);
    rw(&mut expected, 0x8E, 100);
    rw(&mut expected, 0x8F, 0);
    rw(&mut expected, 0x8C, 42);
    rw(&mut expected, 0x8D, 0);
    rmw(&mut expected, 0x86, 0x00, 0x10);
    assert_eq!(bus.frames(), &expected);
}

#[test]
fn fg_color_mode_packs_for_sixteen_bit() {
    let mut d = ER5517::new(SimBus::new(vec![]), SimPin::new());
    assert!(d.fg_color_mode(ColorMode::SixteenBit, 255, 255, 255).is_ok());
    let (bus, _) = d.release();
    let mut expected: Vec<Frame> = Vec::new();
    rw(&mut expected, 0xD2, 31 << 3);
    rw(&mut expected, 0xD3, 63 << 2);
    rw(&mut expected, 0xD4, 31 << 3);
    assert_eq!(bus.frames(), &expected);
}

#[test]
fn bg_color_writes_raw_bytes() {
    let mut d = ER5517::new(SimBus::new(vec![]), SimPin::new());
    assert!(d.bg_color(9, 8, 7).is_ok());
    let (bus, _) = d.release();
    let mut expected: Vec<Frame> = Vec::new();
    rw(&mut expected, 0xD5, 9);
    rw(&mut expected, 0xD6, 8);
    rw(&mut expected, 0xD7, 7);
    assert_eq!(bus.frames(), &expected);
}

#[test]
fn bus_fault_surfaces_as_spi_error_and_restores_cs() {
    let mut d = ER5517::new(SimBus::with_failures(vec![], 1), SimPin::new());
    let r = d.register_write(0x10, 0x01);
    assert!(matches!(r, Err(Error::SPI(_))));
    let (bus, pin) = d.release();
    // the failed transfer carried nothing, and the select line was
    // still released on the way out
    assert!(bus.frames().is_empty());
    assert_eq!(pin.levels(), &vec![false, true]);
}

#[test]
fn register_write_aborts_before_data_frame() {
    // the select frame is carried, the data transfer fails: the data
    // frame is never emitted and the select line is still released
    let mut d = ER5517::new(SimBus::failing_after(vec![], 1, 1), SimPin::new());
    let r = d.register_write(0x2A, 0x5C);
    assert!(matches!(r, Err(Error::SPI(_))));
    let (bus, pin) = d.release();
    assert_eq!(bus.frames(), &vec![Frame::Write { tag: 0x00, val: 0x2A }]);
    assert_eq!(pin.levels(), &vec![false, true, false, true]);
}

#[test]
fn pin_fault_surfaces_as_pin_error() {
    let mut d = ER5517::new(SimBus::new(vec![]), SimPin::with_failures(1));
    let r = d.register_write(0x10, 0x01);
    assert!(matches!(r, Err(Error::Pin(_))));
    let (bus, _) = d.release();
    assert!(bus.frames().is_empty());
}

#[test]
fn bounded_wait_reports_not_ready() {
    let mut cfg = PanelConfig::wide_800x480();
    cfg.poll_limit = 3;
    let mut d = ER5517::new_with(
        SimBus::new(vec![0x08, 0x08, 0x08]),
        SimPin::new(),
        cfg,
        ColorMode::TwentyFourBit,
    );
    let r = d.busy_draw();
    assert!(matches!(r, Err(Error::NotReady)));
    let (bus, _) = d.release();
    let mut expected: Vec<Frame> = Vec::new();
    stat(&mut expected, 0x08);
    stat(&mut expected, 0x08);
    stat(&mut expected, 0x08);
    assert_eq!(bus.frames(), &expected);
}

#[test]
fn busy_draw_polls_until_idle() {
    let mut d = ER5517::new(SimBus::new(vec![0x08, 0x08, 0x00]), SimPin::new());
    assert!(d.busy_draw().is_ok());
    let (bus, _) = d.release();
    let mut expected: Vec<Frame> = Vec::new();
    stat(&mut expected, 0x08);
    stat(&mut expected, 0x08);
    stat(&mut expected, 0x00);
    assert_eq!(bus.frames(), &expected);
}

#[test]
fn draw_pixel_out_of_bounds_is_dropped() {
    // valid x range on an 800-wide panel is 0..799: x == 800 is dropped
    let mut d = ER5517::new(SimBus::new(vec![]), SimPin::new());
    assert!(d.draw_pixel(800, 0, 1, 2, 3).is_ok());
    assert!(d.draw_pixel(0, 480, 1, 2, 3).is_ok());
    let (bus, pin) = d.release();
    assert!(bus.frames().is_empty());
    assert!(pin.levels().is_empty());
}

#[test]
fn draw_pixel_sixteen_bit_writes_two_bytes_with_fifo_waits() {
    let cfg = PanelConfig::wide_800x480();
    let mut d = ER5517::new_with(
        SimBus::new(vec![0x00, 0x00]),
        SimPin::new(),
        cfg,
        ColorMode::SixteenBit,
    );
    assert!(d.draw_pixel(1, 2, 1, 2, 3).is_ok());
    let (bus, _) = d.release();
    let mut expected: Vec<Frame> = Vec::new();
    rw(&mut expected, 0x5F, 1);
    rw(&mut expected, 0x60, 0);
    rw(&mut expected, 0x61, 2);
    rw(&mut expected, 0x62, 0);
    wr(&mut expected, 0x00, 0x04);
    wr(&mut expected, 0x80, 3 | (2 << 5));
    stat(&mut expected, 0x00);
    wr(&mut expected, 0x80, (2 >> 3) | (1 << 3));
    stat(&mut expected, 0x00);
    assert_eq!(bus.frames(), &expected);
}

#[test]
fn draw_pixel_twenty_four_bit_writes_bgr() {
    let mut d = ER5517::new(SimBus::new(vec![0x00, 0x00, 0x00]), SimPin::new());
    assert!(d.draw_pixel(799, 479, 10, 20, 30).is_ok());
    let (bus, _) = d.release();
    let mut expected: Vec<Frame> = Vec::new();
    rw(&mut expected, 0x5F, 0x1F);
    rw(&mut expected, 0x60, 0x03);
    rw(&mut expected, 0x61, 0xDF);
    rw(&mut expected, 0x62, 0x01);
    wr(&mut expected, 0x00, 0x04);
    wr(&mut expected, 0x80, 30);
    stat(&mut expected, 0x00);
    wr(&mut expected, 0x80, 20);
    stat(&mut expected, 0x00);
    wr(&mut expected, 0x80, 10);
    stat(&mut expected, 0x00);
    assert_eq!(bus.frames(), &expected);
}

#[test]
fn fill_rect_outside_panel_is_silent() {
    let mut d = ER5517::new(SimBus::new(vec![]), SimPin::new());
    assert!(d.fill_rect(Rect::new(900, 0, 10, 10), 1, 2, 3).is_ok());
    assert!(d.fill_rect(Rect::new(-20, -20, 5, 5), 1, 2, 3).is_ok());
    assert!(d.fill_rect(Rect::new(0, 0, 0, 10), 1, 2, 3).is_ok());
    let (bus, pin) = d.release();
    assert!(bus.frames().is_empty());
    assert!(pin.levels().is_empty());
}

#[test]
fn fill_rect_white_full_panel_twenty_four_bit() {
    // foreground 255/255/255, corners (0,0) and (799,479), fill
    // command, then draw-idle poll
    let mut d = ER5517::new(SimBus::new(vec![0x00]), SimPin::new());
    assert!(d.fill_rect(Rect::new(0, 0, 800, 480), 255, 255, 255).is_ok());
    let (bus, _) = d.release();
    let mut expected: Vec<Frame> = Vec::new();
    rw(&mut expected, 0xD2, 255);
    rw(&mut expected, 0xD3, 255);
    rw(&mut expected, 0xD4, 255);
    rw(&mut expected, 0x68, 0);
    rw(&mut expected, 0x69, 0);
    rw(&mut expected, 0x6A, 0);
    rw(&mut expected, 0x6B, 0);
    rw(&mut expected, 0x6C, 0x1F);
    rw(&mut expected, 0x6D, 0x03);
    rw(&mut expected, 0x6E, 0xDF);
    rw(&mut expected, 0x6F, 0x01);
    rw(&mut expected, 0x76, 0xE0);
    stat(&mut expected, 0x00);
    assert_eq!(bus.frames(), &expected);
}

#[test]
fn fill_rect_clips_to_panel_bounds() {
    let mut d = ER5517::new(SimBus::new(vec![0x00]), SimPin::new());
    assert!(d.fill_rect(Rect::new(-5, -5, 10, 10), 0, 0, 0).is_ok());
    let (bus, _) = d.release();
    // clipped intersection is (0,0)..(4,4)
    let mut expected: Vec<Frame> = Vec::new();
    rw(&mut expected, 0xD2, 0);
    rw(&mut expected, 0xD3, 0);
    rw(&mut expected, 0xD4, 0);
    rw(&mut expected, 0x68, 0);
    rw(&mut expected, 0x69, 0);
    rw(&mut expected, 0x6A, 0);
    rw(&mut expected, 0x6B, 0);
    rw(&mut expected, 0x6C, 4);
    rw(&mut expected, 0x6D, 0);
    rw(&mut expected, 0x6E, 4);
    rw(&mut expected, 0x6F, 0);
    rw(&mut expected, 0x76, 0xE0);
    stat(&mut expected, 0x00);
    assert_eq!(bus.frames(), &expected);
}
