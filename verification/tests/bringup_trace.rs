//! Golden-trace regression tests for the bring-up sequence: with fixed
//! geometry constants and scripted chip responses, `init` must produce
//! one fully-specified, deterministic list of register transactions.

use tftmc043::{ColorMode, ER5517, Error, Frame, PanelConfig, SimBus, SimDelay, SimPin};

fn frame_w(v: &mut Vec<Frame>, tag: u8, val: u8) {
    v.push(Frame::Write { tag, val });
}

fn frame_rw(v: &mut Vec<Frame>, addr: u8, val: u8) {
    frame_w(v, 0x00, addr);
    frame_w(v, 0x80, val);
}

fn frame_rmw(v: &mut Vec<Frame>, addr: u8, read: u8, val: u8) {
    frame_w(v, 0x00, addr);
    v.push(Frame::Exchange { tag: 0xC0, sent: 0x00, recv: read });
    frame_w(v, 0x80, val);
}

fn frame_stat(v: &mut Vec<Frame>, s: u8) {
    v.push(Frame::Exchange { tag: 0x40, sent: 0x00, recv: s });
}

/// Everything after the reset-cleared wait, for the 800x480 panel in
/// 24-bit mode, assuming every read-modify-write read back 0x00.
fn tail_800x480_24bit(v: &mut Vec<Frame>) {
    // PLL: three channel configs, three multipliers, latch pair, PWM
    frame_rw(v, 0x05, 0x8A);
    frame_rw(v, 0x07, 0x8A);
    frame_rw(v, 0x09, 0x8A);
    frame_rw(v, 0x06, 50);
    frame_rw(v, 0x08, 100);
    frame_rw(v, 0x0A, 100);
    frame_w(v, 0x00, 0x00);
    frame_w(v, 0x80, 0x80);
    frame_rw(v, 0x85, 0x0A);
    frame_rw(v, 0x88, 0x64);
    frame_rw(v, 0x8A, 0x64);
    frame_rw(v, 0x8C, 0x64);
    frame_rw(v, 0x8E, 0x64);
    frame_rw(v, 0x86, 0x33);
    // SDRAM: CAS, refresh interval 476, trigger, ready wait
    frame_rw(v, 0xE0, 0x29);
    frame_rw(v, 0xE1, 0x03);
    frame_rw(v, 0xE2, 0xDC);
    frame_rw(v, 0xE3, 0x01);
    frame_rw(v, 0xE4, 0x01);
    frame_stat(v, 0x04);
    // interface / pixel format / scan / polarity bit fields
    frame_rmw(v, 0x01, 0x00, 0x10);
    frame_rmw(v, 0x01, 0x00, 0x01);
    frame_rmw(v, 0x02, 0x00, 0x40);
    frame_rmw(v, 0x02, 0x00, 0x00);
    frame_rmw(v, 0x03, 0x00, 0x00);
    frame_rmw(v, 0x03, 0x00, 0x00);
    frame_rmw(v, 0x12, 0x00, 0x00);
    frame_rmw(v, 0x12, 0x00, 0x00);
    frame_rmw(v, 0x12, 0x00, 0x00);
    frame_rmw(v, 0x12, 0x00, 0x80);
    frame_rmw(v, 0x13, 0x00, 0x00);
    frame_rmw(v, 0x13, 0x00, 0x00);
    frame_rmw(v, 0x13, 0x00, 0x00);
    // geometry: width 800, height 480, porches 140/160/20 and 20/12/3
    frame_rw(v, 0x14, 99);
    frame_rw(v, 0x15, 0);
    frame_rw(v, 0x1A, 0xDF);
    frame_rw(v, 0x1B, 0x01);
    frame_rw(v, 0x16, 16);
    frame_rw(v, 0x17, 4);
    frame_rw(v, 0x18, 19);
    frame_rw(v, 0x19, 1);
    frame_rw(v, 0x1C, 19);
    frame_rw(v, 0x1D, 0);
    frame_rw(v, 0x1E, 11);
    frame_rw(v, 0x1F, 2);
    // color mode (24-bit), linear addressing, panel on
    frame_rmw(v, 0x10, 0x00, 0x08);
    frame_rmw(v, 0x5E, 0x00, 0x00);
    frame_rmw(v, 0x5E, 0x00, 0x02);
    frame_rmw(v, 0x10, 0x00, 0x08);
    frame_rmw(v, 0x12, 0x00, 0x40);
    frame_rmw(v, 0x10, 0x00, 0x08);
    // framebuffer: main image, canvas, active window
    frame_rw(v, 0x20, 0x00);
    frame_rw(v, 0x21, 0x00);
    frame_rw(v, 0x22, 0x00);
    frame_rw(v, 0x23, 0x00);
    frame_rw(v, 0x24, 0x20);
    frame_rw(v, 0x25, 0x03);
    frame_rw(v, 0x26, 0x00);
    frame_rw(v, 0x27, 0x00);
    frame_rw(v, 0x28, 0x00);
    frame_rw(v, 0x29, 0x00);
    frame_rw(v, 0x50, 0x00);
    frame_rw(v, 0x51, 0x00);
    frame_rw(v, 0x52, 0x00);
    frame_rw(v, 0x53, 0x00);
    frame_rw(v, 0x54, 0x20);
    frame_rw(v, 0x55, 0x03);
    frame_rw(v, 0x56, 0x00);
    frame_rw(v, 0x57, 0x00);
    frame_rw(v, 0x58, 0x00);
    frame_rw(v, 0x59, 0x00);
    frame_rw(v, 0x5A, 0x20);
    frame_rw(v, 0x5B, 0x03);
    frame_rw(v, 0x5C, 0xE0);
    frame_rw(v, 0x5D, 0x01);
}

#[test]
fn init_golden_trace_800x480() {
    // scripted responses: self-check passes at once (reset clear, probe
    // ready), reset wait clears at once, SDRAM trains at once, every
    // read-modify-write reads back 0x00
    let mut responses: Vec<u8> = vec![0x00, 0x80, 0x00, 0x04];
    for _ in 0..19 {
        responses.push(0x00);
    }
    let mut d = ER5517::new(SimBus::new(responses), SimPin::new());
    let mut delay = SimDelay::new();
    assert!(d.init(&mut delay).is_ok());
    let (bus, _) = d.release();
    let mut expected: Vec<Frame> = Vec::new();
    // temperature self-check: reset clear, probe reads back ready
    frame_stat(&mut expected, 0x00);
    frame_w(&mut expected, 0x00, 0x01);
    expected.push(Frame::Exchange { tag: 0xC0, sent: 0x00, recv: 0x80 });
    // reset-cleared wait
    frame_stat(&mut expected, 0x00);
    tail_800x480_24bit(&mut expected);
    assert_eq!(bus.frames(), &expected);
    // the mandatory delays: 2 ms around the ready probe, 100 ms after
    // the self-check, 1 ms around each PLL latch half, 1 ms SDRAM settle
    assert_eq!(delay.recorded(), &vec![2, 2, 100, 1, 1, 1]);
}

#[test]
fn init_retries_self_check_until_ready() {
    // the chip is first busy, then reports the probe not ready (the
    // trigger is re-issued), then passes
    let mut responses: Vec<u8> = vec![0x02, 0x00, 0x00, 0x00, 0x80, 0x00, 0x04];
    for _ in 0..19 {
        responses.push(0x00);
    }
    let mut d = ER5517::new(SimBus::new(responses), SimPin::new());
    let mut delay = SimDelay::new();
    assert!(d.init(&mut delay).is_ok());
    let (bus, _) = d.release();
    let mut expected: Vec<Frame> = Vec::new();
    // round 1: still in reset
    frame_stat(&mut expected, 0x02);
    // round 2: reset clear but probe not ready: re-issue the trigger
    frame_stat(&mut expected, 0x00);
    frame_w(&mut expected, 0x00, 0x01);
    expected.push(Frame::Exchange { tag: 0xC0, sent: 0x00, recv: 0x00 });
    frame_w(&mut expected, 0x00, 0x01);
    frame_w(&mut expected, 0x80, 0x80);
    // round 3: ready
    frame_stat(&mut expected, 0x00);
    frame_w(&mut expected, 0x00, 0x01);
    expected.push(Frame::Exchange { tag: 0xC0, sent: 0x00, recv: 0x80 });
    // reset-cleared wait
    frame_stat(&mut expected, 0x00);
    tail_800x480_24bit(&mut expected);
    assert_eq!(bus.frames(), &expected);
    // the not-ready probe adds four 2 ms delays before the terminal one
    assert_eq!(delay.recorded(), &vec![2, 2, 2, 2, 2, 2, 100, 1, 1, 1]);
}

#[test]
fn init_reports_not_ready_when_chip_stays_busy() {
    let mut cfg = PanelConfig::wide_800x480();
    cfg.poll_limit = 2;
    let mut d = ER5517::new_with(
        SimBus::new(vec![0x02, 0x02]),
        SimPin::new(),
        cfg,
        ColorMode::TwentyFourBit,
    );
    let mut delay = SimDelay::new();
    assert!(matches!(d.init(&mut delay), Err(Error::NotReady)));
    let (bus, _) = d.release();
    // two busy status polls of the self-check, then the bound expired
    let mut expected: Vec<Frame> = Vec::new();
    frame_stat(&mut expected, 0x02);
    frame_stat(&mut expected, 0x02);
    assert_eq!(bus.frames(), &expected);
}

#[test]
fn init_aborts_without_frames_of_later_steps() {
    // the bus dies during the PLL block: the trace ends exactly where
    // the failure struck, with nothing of any later bring-up step
    let responses: Vec<u8> = vec![0x00, 0x80, 0x00];
    let mut d = ER5517::new(SimBus::failing_after(responses, 10, 1), SimPin::new());
    let mut delay = SimDelay::new();
    assert!(matches!(d.init(&mut delay), Err(Error::SPI(_))));
    let (bus, _) = d.release();
    let mut expected: Vec<Frame> = Vec::new();
    frame_stat(&mut expected, 0x00);
    frame_w(&mut expected, 0x00, 0x01);
    expected.push(Frame::Exchange { tag: 0xC0, sent: 0x00, recv: 0x80 });
    frame_stat(&mut expected, 0x00);
    frame_rw(&mut expected, 0x05, 0x8A);
    frame_rw(&mut expected, 0x07, 0x8A);
    frame_rw(&mut expected, 0x09, 0x8A);
    assert_eq!(bus.frames(), &expected);
}

#[test]
fn back_porches_saturate_below_their_encodings() {
    // a back porch shorter than 8 pixels stores 0, not an underflow;
    // a zero vertical back porch stores 0 as well
    let mut responses: Vec<u8> = vec![0x00, 0x80, 0x00, 0x04];
    for _ in 0..19 {
        responses.push(0x00);
    }
    let mut cfg = PanelConfig::wide_800x480();
    cfg.h_back_porch = 4;
    cfg.v_back_porch = 0;
    let mut d = ER5517::new_with(SimBus::new(responses), SimPin::new(), cfg, ColorMode::TwentyFourBit);
    let mut delay = SimDelay::new();
    assert!(d.init(&mut delay).is_ok());
    let (bus, _) = d.release();
    let frames = bus.frames();
    // geometry block starts at offset 80 (see the 480x272 test); the
    // horizontal back porch occupies frames 88..=91, the vertical one
    // frames 96..=99
    assert_eq!(frames[88], Frame::Write { tag: 0x00, val: 0x16 });
    assert_eq!(frames[89], Frame::Write { tag: 0x80, val: 0x00 });
    assert_eq!(frames[90], Frame::Write { tag: 0x00, val: 0x17 });
    assert_eq!(frames[91], Frame::Write { tag: 0x80, val: 0x04 });
    assert_eq!(frames[96], Frame::Write { tag: 0x00, val: 0x1C });
    assert_eq!(frames[97], Frame::Write { tag: 0x80, val: 0x00 });
    assert_eq!(frames[98], Frame::Write { tag: 0x00, val: 0x1D });
    assert_eq!(frames[99], Frame::Write { tag: 0x80, val: 0x00 });
}

#[test]
fn init_golden_trace_480x272_sixteen_bit() {
    let mut responses: Vec<u8> = vec![0x00, 0x80, 0x00, 0x04];
    for _ in 0..19 {
        responses.push(0x00);
    }
    let cfg = PanelConfig::tft_480x272();
    let mut d = ER5517::new_with(SimBus::new(responses), SimPin::new(), cfg, ColorMode::SixteenBit);
    let mut delay = SimDelay::new();
    assert!(d.init(&mut delay).is_ok());
    let (bus, _) = d.release();
    let frames = bus.frames();
    // spot-check what differs from the 800x480 variant: the scan-clock
    // multiplier, the geometry values, the color-format fields and the
    // framebuffer widths
    let expect_at = |i: usize, f: Frame| {
        assert_eq!(frames[i], f, "frame {}", i);
    };
    // temp check (3) + reset wait (1) = offset 4; PLL multiplier for the
    // scan clock is the 4th register write of the PLL block
    expect_at(4 + 6, Frame::Write { tag: 0x00, val: 0x06 });
    expect_at(4 + 7, Frame::Write { tag: 0x80, val: 15 });
    // geometry block starts after PLL (26) + SDRAM regs (10) + ready
    // poll (1) + 13 rmws (39): offset 4 + 26 + 10 + 1 + 39 = 80
    expect_at(80, Frame::Write { tag: 0x00, val: 0x14 });
    expect_at(81, Frame::Write { tag: 0x80, val: 59 });
    expect_at(84, Frame::Write { tag: 0x00, val: 0x1A });
    expect_at(85, Frame::Write { tag: 0x80, val: 0x0F });
    expect_at(86, Frame::Write { tag: 0x00, val: 0x1B });
    expect_at(87, Frame::Write { tag: 0x80, val: 0x01 });
    // color layout block at offset 80 + 24 = 104: 16-bit main-window
    // field is 0b0100, memory field 0b01
    expect_at(104 + 2, Frame::Write { tag: 0x80, val: 0x04 });
    expect_at(104 + 8, Frame::Write { tag: 0x80, val: 0x01 });
    // total length: 4 + 26 + 10 + 1 + 39 + 24 + 18 + 48
    assert_eq!(frames.len(), 170);
}
