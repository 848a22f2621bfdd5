//! The PPU's packed registers, each a word with fields at fixed bit positions.
use vstd::prelude::*;

verus! {

/// Loopy's VRAM address: coarse X (bits 0-4), coarse Y (5-9), nametable (10-11),
/// fine Y (12-14).
#[derive(Clone, Copy, PartialEq, Eq, Structural, Debug)]
pub struct VramAddr {
    pub data: u16,
}

/// PPUCTRL: nametable (bits 0-1), increment (2), sprite table (3), background
/// table (4), sprite height (5), NMI enable (7).
#[derive(Clone, Copy, PartialEq, Eq, Structural, Debug)]
pub struct PpuCtrl {
    pub data: u8,
}

/// PPUMASK: left-column background (bit 1) and sprites (2), background enable
/// (3), sprite enable (4).
#[derive(Clone, Copy, PartialEq, Eq, Structural, Debug)]
pub struct PpuMask {
    pub data: u8,
}

/// PPUSTATUS: sprite overflow (bit 5), sprite-0 hit (6), VBlank (7).
#[derive(Clone, Copy, PartialEq, Eq, Structural, Debug)]
pub struct PpuStatus {
    pub data: u8,
}

/// A sprite's attribute byte: palette (bits 0-1), priority (5), horizontal flip
/// (6), vertical flip (7).
#[derive(Clone, Copy, PartialEq, Eq, Structural, Debug)]
pub struct SpriteAttr {
    pub data: u8,
}

/// The attribute-table address of the tile that `v` points at.
#[derive(Clone, Copy, PartialEq, Eq, Structural, Debug)]
pub struct AttrAddr {
    pub data: u16,
}

/// A pattern-table address: fine Y (bits 0-2), plane (3), tile (4-11), table (12).
#[derive(Clone, Copy, PartialEq, Eq, Structural, Debug)]
pub struct PatternAddr {
    pub data: u16,
}

/// A palette RAM index: pattern bits (0-1), attribute bits (2-3), sprite (4).
#[derive(Clone, Copy, PartialEq, Eq, Structural, Debug)]
pub struct PaletteAddr {
    pub data: u16,
}

impl VramAddr {
    pub open spec fn spec_coarse_x(self) -> u16 {
        self.data & 0x1F
    }

    pub open spec fn spec_coarse_y(self) -> u16 {
        (self.data >> 5u16) & 0x1F
    }

    pub open spec fn spec_fine_y(self) -> u16 {
        (self.data >> 12u16) & 0x7
    }

    pub open spec fn spec_nx(self) -> u16 {
        (self.data >> 10u16) & 0x1
    }

    pub open spec fn spec_ny(self) -> u16 {
        (self.data >> 11u16) & 0x1
    }

    pub open spec fn spec_addr(self) -> u16 {
        self.data & 0x3FFF
    }

    pub fn coarse_x(&self) -> (r: u16)
        ensures
            r == self.spec_coarse_x(),
    {
        self.data & 0x1F
    }

    pub fn set_coarse_x(&mut self, val: u16)
        ensures
            final(self).data == (old(self).data & !0x1Fu16) | (val & 0x1F),
    {
        self.data = (self.data & !0x1Fu16) | (val & 0x1F);
    }

    pub fn coarse_y(&self) -> (r: u16)
        ensures
            r == self.spec_coarse_y(),
    {
        (self.data >> 5u16) & 0x1F
    }

    pub fn set_coarse_y(&mut self, val: u16)
        ensures
            final(self).data == (old(self).data & !0x03E0u16) | ((val & 0x1F) << 5u16),
    {
        self.data = (self.data & !0x03E0u16) | ((val & 0x1F) << 5u16);
    }

    pub fn n(&self) -> (r: u16)
        ensures
            r == (self.data >> 10u16) & 0x3,
    {
        (self.data >> 10u16) & 0x3
    }

    pub fn set_n(&mut self, val: u16)
        ensures
            final(self).data == (old(self).data & !0x0C00u16) | ((val & 0x3) << 10u16),
    {
        self.data = (self.data & !0x0C00u16) | ((val & 0x3) << 10u16);
    }

    pub fn nx(&self) -> (r: u16)
        ensures
            r == self.spec_nx(),
    {
        (self.data >> 10u16) & 0x1
    }

    pub fn set_nx(&mut self, val: u16)
        ensures
            final(self).data == (old(self).data & !0x0400u16) | ((val & 0x1) << 10u16),
    {
        self.data = (self.data & !0x0400u16) | ((val & 0x1) << 10u16);
    }

    pub fn ny(&self) -> (r: u16)
        ensures
            r == self.spec_ny(),
    {
        (self.data >> 11u16) & 0x1
    }

    pub fn set_ny(&mut self, val: u16)
        ensures
            final(self).data == (old(self).data & !0x0800u16) | ((val & 0x1) << 11u16),
    {
        self.data = (self.data & !0x0800u16) | ((val & 0x1) << 11u16);
    }

    pub fn fine_y(&self) -> (r: u16)
        ensures
            r == self.spec_fine_y(),
    {
        (self.data >> 12u16) & 0x7
    }

    pub fn set_fine_y(&mut self, val: u16)
        ensures
            final(self).data == (old(self).data & !0x7000u16) | ((val & 0x7) << 12u16),
    {
        self.data = (self.data & !0x7000u16) | ((val & 0x7) << 12u16);
    }

    /// The 14-bit PPU address.
    pub fn addr(&self) -> (r: u16)
        ensures
            r == self.spec_addr(),
    {
        self.data & 0x3FFF
    }

    /// The low byte of the address.
    pub fn addr_low(&self) -> (r: u16)
        ensures
            r == self.data & 0xFF,
    {
        self.data & 0xFF
    }

    pub fn set_addr_low(&mut self, val: u16)
        ensures
            final(self).data == (old(self).data & !0x00FFu16) | (val & 0xFF),
    {
        self.data = (self.data & !0x00FFu16) | (val & 0xFF);
    }

    /// The high six bits of the address.
    pub fn addr_hi(&self) -> (r: u16)
        ensures
            r == (self.data >> 8u16) & 0x3F,
    {
        (self.data >> 8u16) & 0x3F
    }

    pub fn set_addr_hi(&mut self, val: u16)
        ensures
            final(self).data == (old(self).data & !0x3F00u16) | ((val & 0x3F) << 8u16),
    {
        self.data = (self.data & !0x3F00u16) | ((val & 0x3F) << 8u16);
    }

    /// The nametable address bits (0-11).
    pub fn nt_addr(&self) -> (r: u16)
        ensures
            r == self.data & 0x0FFF,
    {
        self.data & 0x0FFF
    }
}

impl PpuCtrl {
    pub fn increment_32(&self) -> (r: bool)
        ensures
            r == (self.data & 0x04 != 0),
    {
        self.data & 0x04 != 0
    }

    pub fn sprite_table(&self) -> (r: u8)
        ensures
            r == (self.data / 8) % 2,
    {
        (self.data / 8) % 2
    }

    pub fn bg_table(&self) -> (r: u8)
        ensures
            r == (self.data / 16) % 2,
    {
        (self.data / 16) % 2
    }

    pub fn sprites_8x16(&self) -> (r: bool)
        ensures
            r == (self.data & 0x20 != 0),
    {
        self.data & 0x20 != 0
    }

    pub fn nmi_enable(&self) -> (r: bool)
        ensures
            r == (self.data >= 0x80),
    {
        self.data >= 0x80
    }
}

impl PpuMask {
    pub fn bg_left_show(&self) -> (r: bool)
        ensures
            r == (self.data & 0x02 != 0),
    {
        self.data & 0x02 != 0
    }

    pub fn sprite_left_show(&self) -> (r: bool)
        ensures
            r == (self.data & 0x04 != 0),
    {
        self.data & 0x04 != 0
    }

    pub fn bg_enabled(&self) -> (r: bool)
        ensures
            r == (self.data & 0x08 != 0),
    {
        self.data & 0x08 != 0
    }

    pub fn sprites_enabled(&self) -> (r: bool)
        ensures
            r == (self.data & 0x10 != 0),
    {
        self.data & 0x10 != 0
    }
}

impl SpriteAttr {
    pub fn palette(&self) -> (r: u8)
        ensures
            r == self.data % 4,
    {
        self.data % 4
    }

    pub fn priority(&self) -> (r: u8)
        ensures
            r == (self.data / 32) % 2,
    {
        (self.data / 32) % 2
    }

    pub fn flip_hor(&self) -> (r: bool)
        ensures
            r == (self.data & 0x40 != 0),
    {
        self.data & 0x40 != 0
    }

    pub fn flip_ver(&self) -> (r: bool)
        ensures
            r == (self.data >= 0x80),
    {
        self.data >= 0x80
    }
}

impl AttrAddr {
    /// The attribute byte's address for the tile at `v`: 0x23C0 | nametable |
    /// coarse Y / 4 | coarse X / 4.
    pub fn of(v: VramAddr) -> (r: AttrAddr)
        ensures
            r.data == 0x23C0 | (v.data & 0x0C00) | ((v.data >> 4u16) & 0x38) | ((v.data >> 2u16) & 0x07),
    {
        AttrAddr { data: 0x23C0 | (v.data & 0x0C00) | ((v.data >> 4u16) & 0x38) | ((v.data >> 2u16) & 0x07) }
    }

    pub fn data(&self) -> (r: u16)
        ensures
            r == self.data,
    {
        self.data
    }
}

impl PatternAddr {
    /// The address of a pattern plane row: table << 12 | tile << 4 | plane << 3 |
    /// fine Y.
    pub fn of(table: u8, tile: u8, plane: u8, fine_y: u16) -> (r: PatternAddr)
        requires
            table < 2,
            plane < 2,
        ensures
            r.data == table * 0x1000 + tile * 16 + plane * 8 + (fine_y % 8),
    {
        PatternAddr { data: table as u16 * 0x1000 + tile as u16 * 16 + plane as u16 * 8 + (fine_y % 8) }
    }
}

impl PaletteAddr {
    /// Pattern bits, attribute bits and the sprite bit make a 5-bit index.
    pub fn of(p0: u8, p1: u8, a0: u8, a1: u8, s: u8) -> (r: PaletteAddr)
        requires
            p0 < 2 && p1 < 2 && a0 < 2 && a1 < 2 && s < 2,
        ensures
            r.data == p0 + 2 * p1 + 4 * a0 + 8 * a1 + 16 * s,
    {
        PaletteAddr { data: p0 as u16 + 2 * p1 as u16 + 4 * a0 as u16 + 8 * a1 as u16 + 16 * s as u16 }
    }

    /// Whether the pattern bits make an opaque pixel.
    pub fn is_opaque(&self) -> (r: bool)
        ensures
            r == (self.data % 4 != 0),
    {
        self.data % 4 != 0
    }
}

} // verus!
