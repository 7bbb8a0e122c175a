//! The screen: color values, the display control and status registers, and
//! the Mode 3 bitmap layout.
//!
//! These are declarative bit-field layouts and address computations over the
//! palette and video RAM regions; they consume the register access model and
//! contain no protocol logic of their own.

use vstd::prelude::*;

use crate::bits::u16_bit;
use crate::bits::u16_get_bit;
use crate::bits::u16_get_value;
use crate::bits::u16_region;
use crate::bits::u16_set_bit;
use crate::bits::u16_set_region;
use crate::bits::u16_with_bit;
use crate::bits::u16_with_value;
use crate::gba_cell::GbaCellSafe;
use crate::mmio::VolAddress;
use crate::mmio::VolBlock;
use crate::mmio::PALRAM_BASE;
use crate::mmio::VRAM_BASE;

verus! {

/// The display control register.
pub const DISPCNT: usize = 0x0400_0000;

/// The display status register.
pub const DISPSTAT: usize = 0x0400_0004;

/// The current scanline the PPU is drawing (0 through 227), read-only.
pub const VCOUNT: usize = 0x0400_0006;

/// The address of the background palette, 256 entries.
pub const BG_PALETTE_BASE: usize = 0x0500_0000;

/// The address of the object palette, 256 entries.
pub const OBJ_PALETTE_BASE: usize = 0x0500_0200;

/// The handle on the display control register.
pub fn dispcnt_reg() -> (r: VolAddress<true, true>)
    ensures
        r.addr() == DISPCNT,
{
    VolAddress::new(DISPCNT)
}

/// The handle on the display status register.
pub fn dispstat_reg() -> (r: VolAddress<true, true>)
    ensures
        r.addr() == DISPSTAT,
{
    VolAddress::new(DISPSTAT)
}

/// The handle on the scanline counter; the hardware ignores stores to it.
pub fn vcount_reg() -> (r: VolAddress<true, false>)
    ensures
        r.addr() == VCOUNT,
{
    VolAddress::new(VCOUNT)
}

/// The screen's backdrop color: drawn where no layer or object has a
/// non-transparent pixel. The same location is the background palette's
/// zeroth entry.
pub fn backdrop_color_reg() -> (r: VolAddress<true, true>)
    ensures
        r.addr() == PALRAM_BASE,
{
    VolAddress::new(PALRAM_BASE)
}

/// An individual palbank: a 16-color group within a palette. Index 0 of a
/// palbank always means transparency.
pub type PalBank = VolBlock<true, true, 16>;

/// The background palette's 8-bits-per-pixel view: 256 entries.
pub fn bg_palette() -> (r: VolBlock<true, true, 256>)
    ensures
        r.base() == BG_PALETTE_BASE,
        r.wf(),
{
    VolBlock::new(BG_PALETTE_BASE)
}

/// The object palette's 8-bits-per-pixel view: 256 entries.
pub fn obj_palette() -> (r: VolBlock<true, true, 256>)
    ensures
        r.base() == OBJ_PALETTE_BASE,
        r.wf(),
{
    VolBlock::new(OBJ_PALETTE_BASE)
}

/// Gets palbank `x` of the background palette.
pub fn bg_palbank(x: usize) -> (r: PalBank)
    requires
        x < 16,
    ensures
        r.base() == BG_PALETTE_BASE + x * 32,
        r.wf(),
{
    VolBlock::new(BG_PALETTE_BASE + x * 32)
}

/// Gets palbank `x` of the object palette.
pub fn obj_palbank(x: usize) -> (r: PalBank)
    requires
        x < 16,
    ensures
        r.base() == OBJ_PALETTE_BASE + x * 32,
        r.wf(),
{
    VolBlock::new(OBJ_PALETTE_BASE + x * 32)
}

/// A 15-bit color: five bits each of red (low), green, and blue.
#[derive(Debug, Clone, Copy, PartialEq, Eq, Structural)]
pub struct Color {
    bits: u16,
}

impl GbaCellSafe for Color {

}

impl View for Color {
    type V = u16;

    closed spec fn view(&self) -> u16 {
        self.bits
    }
}

impl Color {
    /// Black: all channels zero.
    pub fn new() -> (r: Self)
        ensures
            r@ == 0u16,
    {
        Color { bits: 0 }
    }

    /// The color whose raw halfword is `u`.
    pub fn from_u16(u: u16) -> (r: Self)
        ensures
            r@ == u,
    {
        Color { bits: u }
    }

    /// The raw halfword.
    pub fn to_u16(self) -> (r: u16)
        ensures
            r == self@,
    {
        self.bits
    }

    /// The red channel, 0 through 31.
    pub fn red(self) -> (r: u16)
        ensures
            r == u16_region(self@, 0, 5),
    {
        u16_get_value(self.bits, 0, 5)
    }

    /// The color with the red channel replaced by the low five bits of
    /// `val`.
    pub fn with_red(self, val: u16) -> (r: Self)
        ensures
            r@ == u16_set_region(self@, 0, 5, val),
    {
        Color { bits: u16_with_value(self.bits, 0, 5, val) }
    }

    /// The green channel, 0 through 31.
    pub fn green(self) -> (r: u16)
        ensures
            r == u16_region(self@, 5, 5),
    {
        u16_get_value(self.bits, 5, 5)
    }

    /// The color with the green channel replaced by the low five bits of
    /// `val`.
    pub fn with_green(self, val: u16) -> (r: Self)
        ensures
            r@ == u16_set_region(self@, 5, 5, val),
    {
        Color { bits: u16_with_value(self.bits, 5, 5, val) }
    }

    /// The blue channel, 0 through 31.
    pub fn blue(self) -> (r: u16)
        ensures
            r == u16_region(self@, 10, 5),
    {
        u16_get_value(self.bits, 10, 5)
    }

    /// The color with the blue channel replaced by the low five bits of
    /// `val`.
    pub fn with_blue(self, val: u16) -> (r: Self)
        ensures
            r@ == u16_set_region(self@, 10, 5, val),
    {
        Color { bits: u16_with_value(self.bits, 10, 5, val) }
    }

    /// White: all channels full.
    pub fn white() -> (r: Self)
        ensures
            r@ == 0x7FFFu16,
    {
        Color { bits: 0x7FFF }
    }

    /// Black.
    pub fn black() -> (r: Self)
        ensures
            r@ == 0u16,
    {
        Color { bits: 0 }
    }

    /// Full red.
    pub fn full_red() -> (r: Self)
        ensures
            r@ == 0x001Fu16,
    {
        Color { bits: 0x001F }
    }

    /// Full green.
    pub fn full_green() -> (r: Self)
        ensures
            r@ == 0x03E0u16,
    {
        Color { bits: 0x03E0 }
    }

    /// Full blue.
    pub fn full_blue() -> (r: Self)
        ensures
            r@ == 0x7C00u16,
    {
        Color { bits: 0x7C00 }
    }
}

/// One of the six video modes, held in the display control's low field.
#[derive(Debug, Clone, Copy, PartialEq, Eq, Structural)]
pub enum DisplayMode {
    /// Mode 0: four tiled backgrounds.
    Mode0,
    /// Mode 1: mixed tiled and affine backgrounds.
    Mode1,
    /// Mode 2: two affine backgrounds.
    Mode2,
    /// Mode 3: a single 240x160 direct-color bitmap.
    Mode3,
    /// Mode 4: a paletted full-screen bitmap, page flipped.
    Mode4,
    /// Mode 5: a small direct-color bitmap, page flipped.
    Mode5,
}

/// The field value a display mode stands for.
pub open spec fn spec_mode_bits(m: DisplayMode) -> u16 {
    match m {
        DisplayMode::Mode0 => 0,
        DisplayMode::Mode1 => 1,
        DisplayMode::Mode2 => 2,
        DisplayMode::Mode3 => 3,
        DisplayMode::Mode4 => 4,
        DisplayMode::Mode5 => 5,
    }
}

impl DisplayMode {
    /// The field value this mode stands for.
    pub fn to_u16(self) -> (r: u16)
        ensures
            r == spec_mode_bits(self),
    {
        match self {
            DisplayMode::Mode0 => 0,
            DisplayMode::Mode1 => 1,
            DisplayMode::Mode2 => 2,
            DisplayMode::Mode3 => 3,
            DisplayMode::Mode4 => 4,
            DisplayMode::Mode5 => 5,
        }
    }

    /// The mode a field value stands for; the two remaining three-bit
    /// patterns name no mode.
    pub fn from_u16(u: u16) -> (r: Option<Self>)
        ensures
            match r {
                Some(m) => spec_mode_bits(m) == u,
                None => u > 5,
            },
    {
        match u {
            0 => Some(DisplayMode::Mode0),
            1 => Some(DisplayMode::Mode1),
            2 => Some(DisplayMode::Mode2),
            3 => Some(DisplayMode::Mode3),
            4 => Some(DisplayMode::Mode4),
            5 => Some(DisplayMode::Mode5),
            _ => None,
        }
    }
}

/// The display control register's value.
#[derive(Debug, Clone, Copy, PartialEq, Eq, Structural)]
pub struct DisplayControl {
    bits: u16,
}

impl View for DisplayControl {
    type V = u16;

    closed spec fn view(&self) -> u16 {
        self.bits
    }
}

impl DisplayControl {
    /// Everything off, mode 0.
    pub fn new() -> (r: Self)
        ensures
            r@ == 0u16,
    {
        DisplayControl { bits: 0 }
    }

    /// The value whose raw halfword is `u`.
    pub fn from_u16(u: u16) -> (r: Self)
        ensures
            r@ == u,
    {
        DisplayControl { bits: u }
    }

    /// The raw halfword.
    pub fn to_u16(self) -> (r: u16)
        ensures
            r == self@,
    {
        self.bits
    }

    /// The video mode field, when it names a mode.
    pub fn display_mode(self) -> (r: Option<DisplayMode>)
        ensures
            match r {
                Some(m) => spec_mode_bits(m) == u16_region(self@, 0, 3),
                None => u16_region(self@, 0, 3) > 5,
            },
    {
        DisplayMode::from_u16(u16_get_value(self.bits, 0, 3))
    }

    /// The value with the video mode field set to `m`.
    pub fn with_display_mode(self, m: DisplayMode) -> (r: Self)
        ensures
            r@ == u16_set_region(self@, 0, 3, spec_mode_bits(m)),
    {
        DisplayControl { bits: u16_with_value(self.bits, 0, 3, m.to_u16()) }
    }

    /// Which bitmap frame is shown in the page-flipped modes.
    pub fn frame_select(self) -> (r: bool)
        ensures
            r == u16_bit(self@, 4),
    {
        u16_get_bit(self.bits, 4)
    }

    /// The value with the frame selection bit forced to `val`.
    pub fn with_frame_select(self, val: bool) -> (r: Self)
        ensures
            r@ == u16_set_bit(self@, 4, val),
    {
        DisplayControl { bits: u16_with_bit(self.bits, 4, val) }
    }

    /// Whether object memory is accessible during the horizontal blank.
    pub fn hblank_oam_free(self) -> (r: bool)
        ensures
            r == u16_bit(self@, 5),
    {
        u16_get_bit(self.bits, 5)
    }

    /// The value with the horizontal-blank access bit forced to `val`.
    pub fn with_hblank_oam_free(self, val: bool) -> (r: Self)
        ensures
            r@ == u16_set_bit(self@, 5, val),
    {
        DisplayControl { bits: u16_with_bit(self.bits, 5, val) }
    }

    /// Whether object tiles are laid out one-dimensionally.
    pub fn obj_vram_1d(self) -> (r: bool)
        ensures
            r == u16_bit(self@, 6),
    {
        u16_get_bit(self.bits, 6)
    }

    /// The value with the object layout bit forced to `val`.
    pub fn with_obj_vram_1d(self, val: bool) -> (r: Self)
        ensures
            r@ == u16_set_bit(self@, 6, val),
    {
        DisplayControl { bits: u16_with_bit(self.bits, 6, val) }
    }

    /// Whether the screen is forced blank.
    pub fn forced_blank(self) -> (r: bool)
        ensures
            r == u16_bit(self@, 7),
    {
        u16_get_bit(self.bits, 7)
    }

    /// The value with the forced-blank bit forced to `val`.
    pub fn with_forced_blank(self, val: bool) -> (r: Self)
        ensures
            r@ == u16_set_bit(self@, 7, val),
    {
        DisplayControl { bits: u16_with_bit(self.bits, 7, val) }
    }

    /// Whether background layer 0 is displayed.
    pub fn display_bg0(self) -> (r: bool)
        ensures
            r == u16_bit(self@, 8),
    {
        u16_get_bit(self.bits, 8)
    }

    /// The value with background layer 0 shown or hidden.
    pub fn with_display_bg0(self, val: bool) -> (r: Self)
        ensures
            r@ == u16_set_bit(self@, 8, val),
    {
        DisplayControl { bits: u16_with_bit(self.bits, 8, val) }
    }

    /// Whether background layer 1 is displayed.
    pub fn display_bg1(self) -> (r: bool)
        ensures
            r == u16_bit(self@, 9),
    {
        u16_get_bit(self.bits, 9)
    }

    /// The value with background layer 1 shown or hidden.
    pub fn with_display_bg1(self, val: bool) -> (r: Self)
        ensures
            r@ == u16_set_bit(self@, 9, val),
    {
        DisplayControl { bits: u16_with_bit(self.bits, 9, val) }
    }

    /// Whether background layer 2 is displayed.
    pub fn display_bg2(self) -> (r: bool)
        ensures
            r == u16_bit(self@, 10),
    {
        u16_get_bit(self.bits, 10)
    }

    /// The value with background layer 2 shown or hidden.
    pub fn with_display_bg2(self, val: bool) -> (r: Self)
        ensures
            r@ == u16_set_bit(self@, 10, val),
    {
        DisplayControl { bits: u16_with_bit(self.bits, 10, val) }
    }

    /// Whether background layer 3 is displayed.
    pub fn display_bg3(self) -> (r: bool)
        ensures
            r == u16_bit(self@, 11),
    {
        u16_get_bit(self.bits, 11)
    }

    /// The value with background layer 3 shown or hidden.
    pub fn with_display_bg3(self, val: bool) -> (r: Self)
        ensures
            r@ == u16_set_bit(self@, 11, val),
    {
        DisplayControl { bits: u16_with_bit(self.bits, 11, val) }
    }

    /// Whether objects are displayed.
    pub fn display_obj(self) -> (r: bool)
        ensures
            r == u16_bit(self@, 12),
    {
        u16_get_bit(self.bits, 12)
    }

    /// The value with objects shown or hidden.
    pub fn with_display_obj(self, val: bool) -> (r: Self)
        ensures
            r@ == u16_set_bit(self@, 12, val),
    {
        DisplayControl { bits: u16_with_bit(self.bits, 12, val) }
    }

    /// Whether window 0 is displayed.
    pub fn display_win0(self) -> (r: bool)
        ensures
            r == u16_bit(self@, 13),
    {
        u16_get_bit(self.bits, 13)
    }

    /// The value with window 0 shown or hidden.
    pub fn with_display_win0(self, val: bool) -> (r: Self)
        ensures
            r@ == u16_set_bit(self@, 13, val),
    {
        DisplayControl { bits: u16_with_bit(self.bits, 13, val) }
    }

    /// Whether window 1 is displayed.
    pub fn display_win1(self) -> (r: bool)
        ensures
            r == u16_bit(self@, 14),
    {
        u16_get_bit(self.bits, 14)
    }

    /// The value with window 1 shown or hidden.
    pub fn with_display_win1(self, val: bool) -> (r: Self)
        ensures
            r@ == u16_set_bit(self@, 14, val),
    {
        DisplayControl { bits: u16_with_bit(self.bits, 14, val) }
    }

    /// Whether the object window is displayed.
    pub fn display_obj_win(self) -> (r: bool)
        ensures
            r == u16_bit(self@, 15),
    {
        u16_get_bit(self.bits, 15)
    }

    /// The value with the object window shown or hidden.
    pub fn with_display_obj_win(self, val: bool) -> (r: Self)
        ensures
            r@ == u16_set_bit(self@, 15, val),
    {
        DisplayControl { bits: u16_with_bit(self.bits, 15, val) }
    }
}

/// The display status register's value: the blanking state bits (read-only
/// on the hardware), the display interrupt enables, and the scanline to
/// match on.
#[derive(Debug, Clone, Copy, PartialEq, Eq, Structural)]
pub struct DisplayStatus {
    bits: u16,
}

impl View for DisplayStatus {
    type V = u16;

    closed spec fn view(&self) -> u16 {
        self.bits
    }
}

impl DisplayStatus {
    /// All bits clear.
    pub fn new() -> (r: Self)
        ensures
            r@ == 0u16,
    {
        DisplayStatus { bits: 0 }
    }

    /// The value whose raw halfword is `u`.
    pub fn from_u16(u: u16) -> (r: Self)
        ensures
            r@ == u,
    {
        DisplayStatus { bits: u }
    }

    /// The raw halfword.
    pub fn to_u16(self) -> (r: u16)
        ensures
            r == self@,
    {
        self.bits
    }

    /// Whether the display is in the vertical blank.
    pub fn is_vblank(self) -> (r: bool)
        ensures
            r == u16_bit(self@, 0),
    {
        u16_get_bit(self.bits, 0)
    }

    /// The value with the vertical-blank state bit forced to `val`.
    pub fn with_is_vblank(self, val: bool) -> (r: Self)
        ensures
            r@ == u16_set_bit(self@, 0, val),
    {
        DisplayStatus { bits: u16_with_bit(self.bits, 0, val) }
    }

    /// Whether the display is in the horizontal blank.
    pub fn is_hblank(self) -> (r: bool)
        ensures
            r == u16_bit(self@, 1),
    {
        u16_get_bit(self.bits, 1)
    }

    /// The value with the horizontal-blank state bit forced to `val`.
    pub fn with_is_hblank(self, val: bool) -> (r: Self)
        ensures
            r@ == u16_set_bit(self@, 1, val),
    {
        DisplayStatus { bits: u16_with_bit(self.bits, 1, val) }
    }

    /// Whether the scanline matches the vertical counter setting.
    pub fn is_vcounter(self) -> (r: bool)
        ensures
            r == u16_bit(self@, 2),
    {
        u16_get_bit(self.bits, 2)
    }

    /// The value with the scanline-match state bit forced to `val`.
    pub fn with_is_vcounter(self, val: bool) -> (r: Self)
        ensures
            r@ == u16_set_bit(self@, 2, val),
    {
        DisplayStatus { bits: u16_with_bit(self.bits, 2, val) }
    }

    /// Whether a vertical-blank interrupt is requested.
    pub fn vblank_irq(self) -> (r: bool)
        ensures
            r == u16_bit(self@, 3),
    {
        u16_get_bit(self.bits, 3)
    }

    /// The value with the vertical-blank interrupt enabled or disabled.
    pub fn with_vblank_irq(self, val: bool) -> (r: Self)
        ensures
            r@ == u16_set_bit(self@, 3, val),
    {
        DisplayStatus { bits: u16_with_bit(self.bits, 3, val) }
    }

    /// Whether a horizontal-blank interrupt is requested.
    pub fn hblank_irq(self) -> (r: bool)
        ensures
            r == u16_bit(self@, 4),
    {
        u16_get_bit(self.bits, 4)
    }

    /// The value with the horizontal-blank interrupt enabled or disabled.
    pub fn with_hblank_irq(self, val: bool) -> (r: Self)
        ensures
            r@ == u16_set_bit(self@, 4, val),
    {
        DisplayStatus { bits: u16_with_bit(self.bits, 4, val) }
    }

    /// Whether a scanline-match interrupt is requested.
    pub fn vcounter_irq(self) -> (r: bool)
        ensures
            r == u16_bit(self@, 5),
    {
        u16_get_bit(self.bits, 5)
    }

    /// The value with the scanline-match interrupt enabled or disabled.
    pub fn with_vcounter_irq(self, val: bool) -> (r: Self)
        ensures
            r@ == u16_set_bit(self@, 5, val),
    {
        DisplayStatus { bits: u16_with_bit(self.bits, 5, val) }
    }

    /// The scanline to match on.
    pub fn vcounter(self) -> (r: u16)
        ensures
            r == u16_region(self@, 8, 8),
    {
        u16_get_value(self.bits, 8, 8)
    }

    /// The value with the scanline to match on replaced by the low eight
    /// bits of `val`.
    pub fn with_vcounter(self, val: u16) -> (r: Self)
        ensures
            r@ == u16_set_region(self@, 8, 8, val),
    {
        DisplayStatus { bits: u16_with_value(self.bits, 8, 8, val) }
    }
}

/// Video Mode 3: a single 240x160 direct-color bitmap in video RAM.
#[derive(Debug, Clone, Copy, PartialEq, Eq, Structural)]
pub struct Mode3 {

}

/// A scanline of the Mode 3 bitmap: 240 color entries.
pub type Mode3Scanline = VolBlock<true, true, 240>;

/// The Mode 3 screen width in pixels.
pub const MODE3_WIDTH: usize = 240;

/// The Mode 3 screen height in pixels.
pub const MODE3_HEIGHT: usize = 160;

/// A scanline's span in bytes: 240 two-byte colors.
pub const MODE3_ROW_BYTES: usize = 480;

/// One past the last byte of the Mode 3 bitmap.
pub const MODE3_END: usize = 0x0601_2C00;

impl Mode3 {
    /// The Mode 3 screen.
    pub fn new() -> (r: Self)
        ensures
            true,
    {
        Mode3 {  }
    }

    /// A walker over the bitmap's scanlines, starting at the top row.
    pub fn scanlines(self) -> (r: Mode3Scanlines)
        ensures
            r.wf(),
            r.row() == 0,
    {
        Mode3Scanlines::new()
    }

    /// The handle on the pixel at `(x, y)`: each pixel is one two-byte
    /// color, rows laid out top to bottom.
    pub fn pixel_xy(self, x: usize, y: usize) -> (r: VolAddress<true, true>)
        requires
            x < MODE3_WIDTH,
            y < MODE3_HEIGHT,
        ensures
            r.addr() == VRAM_BASE + (y * MODE3_WIDTH + x) * 2,
    {
        VolAddress::new(VRAM_BASE + (y * MODE3_WIDTH + x) * 2)
    }
}

/// Walks the Mode 3 bitmap row by row, handing out one scanline block per
/// step.
#[derive(Debug, Clone, Copy, PartialEq, Eq, Structural)]
pub struct Mode3Scanlines {
    current: usize,
}

impl Mode3Scanlines {
    /// The address of the next scanline to hand out.
    pub closed spec fn addr(&self) -> usize {
        self.current
    }

    /// The walker stays on row boundaries inside the bitmap, with the end
    /// address meaning exhausted.
    pub open spec fn wf(&self) -> bool {
        &&& VRAM_BASE <= self.addr() <= MODE3_END
        &&& (self.addr() - VRAM_BASE) % (MODE3_ROW_BYTES as int) == 0
    }

    /// The index of the next row to hand out, 160 when exhausted.
    pub open spec fn row(&self) -> int {
        (self.addr() - VRAM_BASE) / (MODE3_ROW_BYTES as int)
    }

    /// A walker at the top row.
    pub fn new() -> (r: Self)
        ensures
            r.wf(),
            r.row() == 0,
    {
        Mode3Scanlines { current: VRAM_BASE }
    }

    /// The index of the next row to hand out.
    pub fn current_row(&self) -> (r: usize)
        requires
            self.wf(),
        ensures
            r == self.row(),
    {
        (self.current - VRAM_BASE) / MODE3_ROW_BYTES
    }

    /// How many rows are still to come.
    pub fn remaining_rows(&self) -> (r: usize)
        requires
            self.wf(),
        ensures
            r == MODE3_HEIGHT - self.row(),
    {
        MODE3_HEIGHT - self.current_row()
    }

    /// Hands out the next scanline and advances, or `None` once all 160
    /// rows are done.
    pub fn next(&mut self) -> (r: Option<Mode3Scanline>)
        requires
            old(self).wf(),
        ensures
            final(self).wf(),
            if old(self).row() < MODE3_HEIGHT {
                &&& r matches Some(line) && line.base() == old(self).addr() && line.wf()
                &&& final(self).row() == old(self).row() + 1
            } else {
                r is None && final(self).row() == old(self).row()
            },
    {
        if self.current < MODE3_END {
            let out = VolBlock::new(self.current);
            self.current = self.current + MODE3_ROW_BYTES;
            Some(out)
        } else {
            None
        }
    }

    /// The bounds a caller may assume on the rows to come: at least zero,
    /// at most the remaining row count.
    pub fn size_hint(&self) -> (r: (usize, Option<usize>))
        requires
            self.wf(),
        ensures
            r.0 == 0,
            r.1 matches Some(n) && n == MODE3_HEIGHT - self.row(),
    {
        (0, Some(self.remaining_rows()))
    }

    /// How many rows the walker would still hand out.
    pub fn count(self) -> (r: usize)
        requires
            self.wf(),
        ensures
            r == MODE3_HEIGHT - self.row(),
    {
        self.remaining_rows()
    }

    /// The bitmap's last scanline, or `None` when the walker is exhausted.
    pub fn last(self) -> (r: Option<Mode3Scanline>)
        requires
            self.wf(),
        ensures
            if self.row() < MODE3_HEIGHT {
                r matches Some(line) && line.base() == MODE3_END - MODE3_ROW_BYTES && line.wf()
            } else {
                r is None
            },
    {
        if self.current < MODE3_END {
            Some(VolBlock::new(MODE3_END - MODE3_ROW_BYTES))
        } else {
            None
        }
    }

    /// Skips `n` rows, then hands out the next scanline as [`Self::next`]
    /// does; skipping past the bottom exhausts the walker.
    pub fn nth(&mut self, n: usize) -> (r: Option<Mode3Scanline>)
        requires
            old(self).wf(),
        ensures
            final(self).wf(),
            if old(self).row() + n < MODE3_HEIGHT {
                &&& r matches Some(line) && line.wf() && line.base() == old(self).addr() + n
                    * MODE3_ROW_BYTES
                &&& final(self).row() == old(self).row() + n + 1
            } else {
                r is None && final(self).row() == MODE3_HEIGHT
            },
    {
        if n >= MODE3_HEIGHT {
            self.current = MODE3_END;
            None
        } else {
            let target = self.current + n * MODE3_ROW_BYTES;
            if target >= MODE3_END {
                self.current = MODE3_END;
                None
            } else {
                self.current = target;
                self.next()
            }
        }
    }

    /// The greatest scanline the walker would hand out — the bottom row —
    /// or `None` when it is exhausted.
    pub fn max(self) -> (r: Option<Mode3Scanline>)
        requires
            self.wf(),
        ensures
            if self.row() < MODE3_HEIGHT {
                r matches Some(line) && line.base() == MODE3_END - MODE3_ROW_BYTES && line.wf()
            } else {
                r is None
            },
    {
        self.last()
    }

    /// The least scanline the walker would hand out — the current row — or
    /// `None` when it is exhausted.
    pub fn min(self) -> (r: Option<Mode3Scanline>)
        requires
            self.wf(),
        ensures
            if self.row() < MODE3_HEIGHT {
                r matches Some(line) && line.base() == self.addr() && line.wf()
            } else {
                r is None
            },
    {
        let mut walker = self;
        walker.next()
    }
}


impl Default for Color {
    /// Black.
    fn default() -> (r: Self)
        ensures
            r@ == 0u16,
    {
        Color::new()
    }
}

impl Default for DisplayMode {
    /// Mode 0.
    fn default() -> (r: Self)
        ensures
            r == DisplayMode::Mode0,
    {
        DisplayMode::Mode0
    }
}

impl Default for DisplayControl {
    /// Everything off, mode 0.
    fn default() -> (r: Self)
        ensures
            r@ == 0u16,
    {
        DisplayControl::new()
    }
}

impl Default for DisplayStatus {
    /// All bits clear.
    fn default() -> (r: Self)
        ensures
            r@ == 0u16,
    {
        DisplayStatus::new()
    }
}

impl Default for Mode3Scanlines {
    /// A walker at the top row.
    fn default() -> (r: Self)
        ensures
            r.wf(),
            r.row() == 0,
    {
        Mode3Scanlines::new()
    }
}

} // verus!
