//! Panel geometry, bring-up configuration and rectangles.

use vstd::prelude::*;

verus! {

/// Width, in pixels, of the 800x480 panel the default driver targets.
pub const LCD_WIDTH: u16 = 800;

/// Height, in pixels, of the 800x480 panel the default driver targets.
pub const LCD_HEIGHT: u16 = 480;

/// Geometry and bring-up parameters of one panel variant.
///
/// The timing values are in source pixel units; the chip stores them in
/// divided-by-8, minus-one encodings, which is what the bounds in
/// [`PanelConfig::wf`] protect.  `scan_pll_n` is the feedback multiplier
/// of the scan-clock PLL, the one value that differs between the panel
/// variants this driver consolidates.  `poll_limit` bounds every status
/// poll: a wait that exceeds it surfaces a hardware-not-ready error
/// instead of spinning forever.
#[derive(Clone, Copy, PartialEq, Eq, Structural, Debug)]
pub struct PanelConfig {
    /// Panel width in pixels.
    pub width: u16,
    /// Panel height in pixels.
    pub height: u16,
    /// Horizontal back-porch (non-display period) in pixels.
    pub h_back_porch: u16,
    /// Horizontal front-porch (display start position) in pixels.
    pub h_front_porch: u16,
    /// Horizontal sync-pulse width in pixels.
    pub h_sync_width: u16,
    /// Vertical back-porch in lines.
    pub v_back_porch: u16,
    /// Vertical front-porch in lines.
    pub v_front_porch: u16,
    /// Vertical sync-pulse width in lines.
    pub v_sync_width: u16,
    /// Feedback multiplier for the scan-clock PLL channel.
    pub scan_pll_n: u8,
    /// Maximum number of status reads per busy-wait before the wait
    /// reports hardware-not-ready.
    pub poll_limit: u32,
}

/// The value [`PanelConfig::wide_800x480`] returns: the default 800x480
/// panel with its fixed porch timings and scan clock.
pub open spec fn default_800x480() -> PanelConfig {
    PanelConfig {
        width: LCD_WIDTH,
        height: LCD_HEIGHT,
        h_back_porch: 140,
        h_front_porch: 160,
        h_sync_width: 20,
        v_back_porch: 20,
        v_front_porch: 12,
        v_sync_width: 3,
        scan_pll_n: 50,
        poll_limit: 1000000,
    }
}

/// The value [`PanelConfig::tft_480x272`] returns.
pub open spec fn default_480x272() -> PanelConfig {
    PanelConfig {
        width: 480,
        height: 272,
        h_back_porch: 140,
        h_front_porch: 160,
        h_sync_width: 20,
        v_back_porch: 20,
        v_front_porch: 12,
        v_sync_width: 3,
        scan_pll_n: 15,
        poll_limit: 1000000,
    }
}

impl PanelConfig {
    /// The values fit the chip's register encodings: horizontal timings
    /// are stored as `x / 8 - 1` in one byte (saturating where the
    /// value may fall below 8), vertical front-porch and sync width as
    /// `x - 1` in one byte, and width and height must not underflow
    /// their minus-one encodings.
    pub open spec fn wf(&self) -> bool {
        &&& 8 <= self.width <= 2055
        &&& 1 <= self.height
        &&& self.h_back_porch <= 2055
        &&& self.h_front_porch <= 2055
        &&& self.h_sync_width <= 2055
        &&& self.v_front_porch <= 256
        &&& self.v_sync_width <= 256
        &&& 1 <= self.poll_limit
    }

    /// Configuration of the 800x480 panel (the default target).
    pub fn wide_800x480() -> (out: PanelConfig)
        ensures
            out.wf(),
            out == default_800x480(),
    {
        PanelConfig {
            width: LCD_WIDTH,
            height: LCD_HEIGHT,
            h_back_porch: 140,
            h_front_porch: 160,
            h_sync_width: 20,
            v_back_porch: 20,
            v_front_porch: 12,
            v_sync_width: 3,
            scan_pll_n: 50,
            poll_limit: 1000000,
        }
    }

    /// Configuration of the 480x272 panel variant, which uses the same
    /// porch timings but a slower scan clock.
    pub fn tft_480x272() -> (out: PanelConfig)
        ensures
            out.wf(),
            out == default_480x272(),
    {
        PanelConfig {
            width: 480,
            height: 272,
            h_back_porch: 140,
            h_front_porch: 160,
            h_sync_width: 20,
            v_back_porch: 20,
            v_front_porch: 12,
            v_sync_width: 3,
            scan_pll_n: 15,
            poll_limit: 1000000,
        }
    }
}

/// An axis-aligned rectangle: origin `(x, y)` and size `(w, h)` in
/// pixels.  The origin may lie outside the panel, including at negative
/// coordinates; drawing clips to the panel bounds.
#[derive(Clone, Copy, PartialEq, Eq, Structural, Debug)]
pub struct Rect {
    /// Horizontal coordinate of the left edge.
    pub x: i32,
    /// Vertical coordinate of the top edge.
    pub y: i32,
    /// Width in pixels.
    pub w: u32,
    /// Height in pixels.
    pub h: u32,
}

impl Rect {
    /// Build a rectangle from its origin and size.
    pub fn new(x: i32, y: i32, w: u32, h: u32) -> (out: Rect)
        ensures
            out == (Rect { x, y, w, h }),
    {
        Rect { x, y, w, h }
    }
}

/// Left edge of `r` clipped to the panel (inclusive).
pub open spec fn clip_x0(r: Rect) -> int {
    if r.x < 0 {
        0
    } else {
        r.x as int
    }
}

/// Top edge of `r` clipped to the panel (inclusive).
pub open spec fn clip_y0(r: Rect) -> int {
    if r.y < 0 {
        0
    } else {
        r.y as int
    }
}

/// Right edge of `r` clipped to a panel `pw` pixels wide (exclusive).
pub open spec fn clip_x1(r: Rect, pw: u16) -> int {
    if r.x + r.w < pw {
        r.x + r.w
    } else {
        pw as int
    }
}

/// Bottom edge of `r` clipped to a panel `ph` pixels tall (exclusive).
pub open spec fn clip_y1(r: Rect, ph: u16) -> int {
    if r.y + r.h < ph {
        r.y + r.h
    } else {
        ph as int
    }
}

/// Whether `r` intersects the panel `[0, pw) x [0, ph)` at all.
pub open spec fn rect_visible(r: Rect, pw: u16, ph: u16) -> bool {
    clip_x0(r) < clip_x1(r, pw) && clip_y0(r) < clip_y1(r, ph)
}

} // verus!
