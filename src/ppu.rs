//! The picture processing unit: the dot/scanline state machine with its
//! background pipeline, sprite evaluation and pixel multiplexer, the CPU-visible
//! register port, palette RAM and VBlank/NMI.
use vstd::prelude::*;
use crate::cartridge::{byte_at, get_byte, put_byte, set_byte};
use crate::cpu::inc64;
use crate::ppu_palette::{rgb, rgb_spec};
use crate::ppu_regs::{AttrAddr, PaletteAddr, PatternAddr, PpuCtrl, PpuMask, PpuStatus, SpriteAttr, VramAddr};

verus! {

pub const NUM_ROWS: u32 = 262;
pub const NUM_COLS: u32 = 341;
pub const CYCLES_PER_FRAME: u32 = 89342;
pub const DISPLAY_WIDTH: u32 = 256;
pub const DISPLAY_HEIGHT: u32 = 240;
pub const FRAME_SIZE_BYTES: usize = 184320;
pub const PPU_CTRL: u16 = 0;
pub const PPU_MASK: u16 = 1;
pub const PPU_STATUS: u16 = 2;
pub const OAM_ADDR: u16 = 3;
pub const OAM_DATA: u16 = 4;
pub const PPU_SCROLL: u16 = 5;
pub const PPU_ADDR: u16 = 6;
pub const PPU_DATA: u16 = 7;
pub const PALETTE_RAM_SIZE: usize = 32;
pub const PALETTE_START: u16 = 0x3F00;
pub const OAM_SIZE: usize = 256;
pub const SPRITES_PER_ROW: usize = 8;

/// The PPU's memory bus (pattern tables and nametables). Its behaviour is given
/// over its view: what a read returns, and the view after a read or a write.
pub trait PpuBus: View + Sized {
    spec fn spec_ppu_read(m: Self::V, addr: u16) -> (u8, Self::V);

    spec fn spec_ppu_write(m: Self::V, addr: u16, data: u8) -> Self::V;

    fn ppu_read(&mut self, addr: u16) -> (r: u8)
        ensures
            (r, final(self)@) == Self::spec_ppu_read(old(self)@, addr),
    ;

    fn ppu_write(&mut self, addr: u16, data: u8)
        ensures
            final(self)@ == Self::spec_ppu_write(old(self)@, addr, data),
    ;
}

/// One sprite selected for the next row.
#[derive(Clone, Copy, PartialEq, Eq, Structural, Debug)]
pub struct SpriteInfo {
    pub x_pos: u8,
    pub y_pos: u8,
    pub fine_y: u8,
    pub pattern_table: u8,
    pub tile: u8,
    pub attr: SpriteAttr,
    pub sprite_0: bool,
}

impl SpriteInfo {
    /// An empty slot.
    pub fn empty() -> (r: SpriteInfo)
        ensures
            r == empty_sprite(),
    {
        SpriteInfo {
            x_pos: 0xFF,
            y_pos: 0xFF,
            fine_y: 0xFF,
            pattern_table: 0,
            tile: 0xFF,
            attr: SpriteAttr { data: 0xFF },
            sprite_0: false,
        }
    }
}

/// The PPU state.
pub struct Ppu {
    pub ctrl: PpuCtrl,
    pub mask: PpuMask,
    pub status: PpuStatus,
    pub v: VramAddr,
    pub t: VramAddr,
    pub w: bool,
    pub x: u8,
    pub read_buf: u8,
    pub palette_ram: Vec<u8>,
    pub nmi: bool,
    pub bg_patt_shift_reg_0: u16,
    pub bg_patt_shift_reg_1: u16,
    pub bg_attr_shift_reg_0: u16,
    pub bg_attr_shift_reg_1: u16,
    pub bg_tile_num: u8,
    pub bg_attr: u8,
    pub bg_pattern_0: u8,
    pub bg_pattern_1: u8,
    pub oam: Vec<u8>,
    pub sprite_infos: Vec<SpriteInfo>,
    pub sprite_patterns_0: Vec<u8>,
    pub sprite_patterns_1: Vec<u8>,
    pub oam_addr: u8,
    pub cycles: u64,
    pub row: u32,
    pub col: u32,
}

/// The part of the PPU that its CPU port never touches: position, counters, NMI
/// output, background pipeline and sprite row buffers.
pub struct PpuCore {
    pub row: u32,
    pub col: u32,
    pub cycles: u64,
    pub nmi: bool,
    pub shift_regs: (u16, u16, u16, u16),
    pub latches: (u8, u8, u8, u8),
    pub sprite_infos: Seq<SpriteInfo>,
    pub sprite_patterns: (Seq<u8>, Seq<u8>),
}

/// The registers and memories of the PPU that its CPU port reads and writes.
pub struct PpuView {
    pub ctrl: u8,
    pub mask: u8,
    pub status: u8,
    pub v: u16,
    pub t: u16,
    pub w: bool,
    pub x: u8,
    pub read_buf: u8,
    pub palette_ram: Seq<u8>,
    pub oam: Seq<u8>,
    pub oam_addr: u8,
}

/// Where a dot's colour comes from.
#[derive(Clone, Copy, PartialEq, Eq, Structural, Debug)]
pub enum PixelSource {
    Backdrop,
    Background,
    Sprite,
}

/// The multiplexer's truth table: an opaque sprite in front wins; an opaque
/// sprite behind the background wins only over a transparent background; else an
/// opaque background; else the universal backdrop.
pub open spec fn mux_spec(sprite_in_front: bool, sprite_opaque: bool, bg_opaque: bool) -> PixelSource {
    match (sprite_in_front, sprite_opaque, bg_opaque) {
        (true, false, false) => PixelSource::Backdrop,
        (true, false, true) => PixelSource::Background,
        (true, true, false) => PixelSource::Sprite,
        (true, true, true) => PixelSource::Sprite,
        (false, false, false) => PixelSource::Backdrop,
        (false, false, true) => PixelSource::Background,
        (false, true, false) => PixelSource::Sprite,
        (false, true, true) => PixelSource::Background,
    }
}

/// Chooses the source of a dot's colour.
pub fn mux_pixel(sprite_in_front: bool, sprite_opaque: bool, bg_opaque: bool) -> (r: PixelSource)
    ensures
        r == mux_spec(sprite_in_front, sprite_opaque, bg_opaque),
{
    if sprite_opaque && (sprite_in_front || !bg_opaque) {
        PixelSource::Sprite
    } else if bg_opaque {
        PixelSource::Background
    } else {
        PixelSource::Backdrop
    }
}

/// `v` after one dot at `(row, col)`: on rendering rows (visible and pre-render)
/// with rendering on, coarse X advances every eighth fetch dot, fine/coarse Y at
/// dot 256, the horizontal bits are copied from `t` at dot 257; on the
/// pre-render row the vertical bits are copied from `t`.
pub open spec fn v_after_dot(v: u16, t: u16, row: u32, col: u32, rendering: bool) -> u16 {
    let render_row = (row < 240 || row == 261) && rendering;
    let v1 = if v_hor_step(row, col, rendering) { inc_hor(v) } else { v };
    let v2 = if render_row && col == 256 { inc_ver(v1) } else { v1 };
    let v3 = if render_row && col == 257 { (v2 & !0x041Fu16) | (t & 0x041F) } else { v2 };
    if row == 261 && rendering { (v3 & !0x7BE0u16) | (t & 0x7BE0) } else { v3 }
}

/// OAM entry `k`'s Y band covers `row` (a band of 16 rows for tall sprites, else 8).
pub open spec fn sprite_in_range(oam: Seq<u8>, row: u32, k: int, tall: bool) -> bool {
    let y = byte_at(oam, 4 * k);
    row >= y && row - y <= (if tall { 15int } else { 7 })
}

/// The OAM entries among the first `n` that cover `row`, in OAM order.
pub open spec fn sprites_in_range(oam: Seq<u8>, row: u32, tall: bool, n: int) -> Seq<int>
    decreases n,
{
    if n <= 0 {
        Seq::empty()
    } else if sprite_in_range(oam, row, n - 1, tall) {
        sprites_in_range(oam, row, tall, n - 1).push(n - 1)
    } else {
        sprites_in_range(oam, row, tall, n - 1)
    }
}

proof fn lemma_sel_prefix(oam: Seq<u8>, row: u32, tall: bool, n: int, m: int)
    requires
        0 <= n <= m,
    ensures
        sprites_in_range(oam, row, tall, n).len() <= sprites_in_range(oam, row, tall, m).len(),
        sprites_in_range(oam, row, tall, m).subrange(0, sprites_in_range(oam, row, tall, n).len() as int)
            == sprites_in_range(oam, row, tall, n),
    decreases m - n,
{
    if n < m {
        lemma_sel_prefix(oam, row, tall, n, m - 1);
        let a = sprites_in_range(oam, row, tall, n);
        let b = sprites_in_range(oam, row, tall, m - 1);
        let c = sprites_in_range(oam, row, tall, m);
        assert(c.subrange(0, a.len() as int) =~= b.subrange(0, a.len() as int));
    } else {
        let a = sprites_in_range(oam, row, tall, n);
        assert(a.subrange(0, a.len() as int) =~= a);
    }
}

/// The row-buffer entry of OAM entry `i` on `row`: its position, attributes,
/// tile and pattern table (for tall sprites from tile bit 0, the second tile for
/// the lower half), and its fine Y (flipped vertically when the attribute says
/// so).
pub open spec fn sprite_info_of(oam: Seq<u8>, row: u32, tall: bool, ctrl: u8, i: int) -> SpriteInfo {
    let y = byte_at(oam, 4 * i);
    let t = byte_at(oam, 4 * i + 1);
    let attr = byte_at(oam, 4 * i + 2);
    let y_max: int = if tall { 15 } else { 7 };
    let fy0 = row - y;
    let fy = if attr >= 0x80 { y_max - fy0 } else { fy0 };
    let tile0: u8 = if tall { t & 0xFE } else { t };
    SpriteInfo {
        x_pos: byte_at(oam, 4 * i + 3),
        y_pos: y,
        fine_y: fy as u8,
        pattern_table: if tall { t & 1 } else { (ctrl / 8) % 2 },
        tile: if fy > 7 { (tile0 + 1) as u8 } else { tile0 },
        attr: SpriteAttr { data: attr },
        sprite_0: i == 0,
    }
}

/// The first sprite of the row buffer from slot `k` on with an opaque pixel at
/// dot `col`, and its palette index (sprite bit set); an empty slot and index 0
/// if none.
pub open spec fn sprite_pixel_at(infos: Seq<SpriteInfo>, pat0: Seq<u8>, pat1: Seq<u8>, col: u32, k: int) -> (SpriteInfo, u16)
    decreases 8 - k,
{
    if k < 0 || k >= 8 {
        (empty_sprite(), 0)
    } else {
        let s = sprite_at(infos, k);
        let px = col - 1;
        if px >= s.x_pos && px - s.x_pos < 8 && s.fine_y != 0xFF {
            let fx0 = px - s.x_pos;
            let fx = if s.attr.data & 0x40 != 0 { 7 - fx0 } else { fx0 };
            let p0 = (byte_at(pat0, k) >> ((7 - fx) as u8)) % 2;
            let p1 = (byte_at(pat1, k) >> ((7 - fx) as u8)) % 2;
            if p0 != 0 || p1 != 0 {
                let pal = s.attr.data % 4;
                (s, (p0 + 2 * p1 + 4 * (pal % 2) + 8 * (pal / 2) + 16) as u16)
            } else {
                sprite_pixel_at(infos, pat0, pat1, col, k + 1)
            }
        } else {
            sprite_pixel_at(infos, pat0, pat1, col, k + 1)
        }
    }
}

/// The register-port updates of `t` keep it within 15 bits.
proof fn lemma_port_bounds(t: u16, d: u8)
    requires
        t < 0x8000,
    ensures
        (t & !0x0C00u16) | (((d & 3) as u16) << 10u16) < 0x8000,
        (t & !0x1Fu16) | ((d >> 3u8) as u16) < 0x8000,
        (t & !0x73E0u16) | (((d & 7) as u16) << 12u16) | (((d >> 3u8) as u16) << 5u16) < 0x8000,
        (t & 0x80FF) | (((d & 0x3F) as u16) << 8u16) < 0x8000,
        (t & 0xFF00) | (d as u16) < 0x8000,
{
    assert((t & !0x0C00u16) | (((d & 3) as u16) << 10u16) < 0x8000) by (bit_vector)
        requires t < 0x8000;
    assert((t & !0x1Fu16) | ((d >> 3u8) as u16) < 0x8000) by (bit_vector)
        requires t < 0x8000;
    assert((t & !0x73E0u16) | (((d & 7) as u16) << 12u16) | (((d >> 3u8) as u16) << 5u16) < 0x8000) by (bit_vector)
        requires t < 0x8000;
    assert((t & 0x80FF) | (((d & 0x3F) as u16) << 8u16) < 0x8000) by (bit_vector)
        requires t < 0x8000;
    assert((t & 0xFF00) | (d as u16) < 0x8000) by (bit_vector)
        requires t < 0x8000;
}

/// A dot's updates of `v` keep it within 15 bits.
pub proof fn lemma_v_after_dot_bounded(v: u16, t: u16, row: u32, col: u32, rendering: bool)
    requires
        v < 0x8000,
        t < 0x8000,
    ensures
        v_after_dot(v, t, row, col, rendering) < 0x8000,
{
    assert(inc_hor(v) < 0x8000) by {
        if v & 0x1F == 31 {
            assert((v & !0x1Fu16) ^ 0x0400 < 0x8000) by (bit_vector)
                requires v < 0x8000;
        } else {
            assert(((v + 1) as u16) < 0x8000) by (bit_vector)
                requires v < 0x8000, v & 0x1F != 31;
        }
    }
    let v1 = if v_hor_step(row, col, rendering) { inc_hor(v) } else { v };
    assert(inc_ver(v1) < 0x8000) by {
        if (v1 >> 12u16) & 7 < 7 {
            assert(((v1 + 0x1000) as u16) < 0x8000) by (bit_vector)
                requires v1 < 0x8000, (v1 >> 12u16) & 7 < 7;
        } else {
            let d1 = v1 & !0x7000u16;
            assert(d1 < 0x8000 && ((d1 & !0x03E0u16) ^ 0x0800) < 0x8000 && (d1 & !0x03E0u16) < 0x8000) by (bit_vector)
                requires v1 < 0x8000, d1 == v1 & !0x7000u16;
            if (v1 >> 5u16) & 0x1F != 29 && (v1 >> 5u16) & 0x1F != 31 {
                assert(((d1 + 0x20) as u16) < 0x8000) by (bit_vector)
                    requires d1 == v1 & !0x7000u16, v1 < 0x8000, (v1 >> 5u16) & 0x1F != 31;
            }
        }
    }
    let v2 = if (row < 240 || row == 261) && rendering && col == 256 { inc_ver(v1) } else { v1 };
    assert((v2 & !0x041Fu16) | (t & 0x041F) < 0x8000) by (bit_vector)
        requires v2 < 0x8000, t < 0x8000;
    let v3 = if (row < 240 || row == 261) && rendering && col == 257 { (v2 & !0x041Fu16) | (t & 0x041F) } else { v2 };
    assert((v3 & !0x7BE0u16) | (t & 0x7BE0) < 0x8000) by (bit_vector)
        requires v3 < 0x8000, t < 0x8000;
}

/// Whether a dot advances coarse X.
pub open spec fn v_hor_step(row: u32, col: u32, rendering: bool) -> bool {
    (row < 240 || row == 261) && rendering && ((1 <= col <= 256) || (321 <= col <= 336)) && (col - 1) % 8 == 7
}

/// A dot's pixel depends only on the background shift registers, fine X, the
/// mask, palette RAM, the sprite row buffers and the dot.
proof fn lemma_pixel_inputs(a: Ppu, b: Ppu)
    requires
        a.bg_patt_shift_reg_0 == b.bg_patt_shift_reg_0 && a.bg_patt_shift_reg_1 == b.bg_patt_shift_reg_1,
        a.bg_attr_shift_reg_0 == b.bg_attr_shift_reg_0 && a.bg_attr_shift_reg_1 == b.bg_attr_shift_reg_1,
        a.x == b.x && a.mask == b.mask && a.palette_ram@ == b.palette_ram@ && a.col == b.col,
        a.sprite_infos@ == b.sprite_infos@,
        a.sprite_patterns_0@ == b.sprite_patterns_0@ && a.sprite_patterns_1@ == b.sprite_patterns_1@,
    ensures
        a.spec_pixel() == b.spec_pixel(),
{
}

/// An empty row-buffer slot.
pub open spec fn empty_sprite() -> SpriteInfo {
    SpriteInfo {
        x_pos: 0xFF,
        y_pos: 0xFF,
        fine_y: 0xFF,
        pattern_table: 0,
        tile: 0xFF,
        attr: SpriteAttr { data: 0xFF },
        sprite_0: false,
    }
}

/// Slot `k` of the row buffer, or an empty slot past its end.
pub open spec fn sprite_at(s: Seq<SpriteInfo>, k: int) -> SpriteInfo {
    if 0 <= k < s.len() { s[k] } else { empty_sprite() }
}

/// The palette RAM index of an address: 0x10, 0x14, 0x18 and 0x1C alias 0x00,
/// 0x04, 0x08 and 0x0C.
pub open spec fn palette_index(addr: u16) -> int {
    let a = addr % 32;
    if a == 0x10 || a == 0x14 || a == 0x18 || a == 0x1C { a - 0x10 } else { a as int }
}

/// Computes the palette RAM index of an address.
pub fn get_palette_addr(addr: u16) -> (r: usize)
    ensures
        r == palette_index(addr),
        r < PALETTE_RAM_SIZE,
{
    let a = (addr % 32) as usize;
    if a == 0x10 || a == 0x14 || a == 0x18 || a == 0x1C { a - 0x10 } else { a }
}

/// `v` advanced by the PPUDATA increment (1, or 32 with PPUCTRL bit 2).
pub open spec fn data_inc(v: u16, ctrl: u8) -> u16 {
    ((v + (if ctrl & 0x04 != 0 { 32int } else { 1 })) % 0x8000) as u16
}

/// The horizontal increment of `v`: coarse X advances, wrapping at 31 into the
/// other horizontal nametable.
pub open spec fn inc_hor(d: u16) -> u16 {
    if d & 0x1F == 31 { (d & !0x1Fu16) ^ 0x0400 } else { (d + 1) as u16 }
}

/// The vertical increment of `v`: fine Y advances, then coarse Y, which wraps at
/// 29 into the other vertical nametable and at 31 without changing it.
pub open spec fn inc_ver(d: u16) -> u16 {
    if (d >> 12u16) & 7 < 7 {
        (d + 0x1000) as u16
    } else {
        let d1 = d & !0x7000u16;
        let cy = (d >> 5u16) & 0x1F;
        if cy == 29 {
            (d1 & !0x03E0u16) ^ 0x0800
        } else if cy == 31 {
            d1 & !0x03E0u16
        } else {
            (d1 + 0x20) as u16
        }
    }
}

impl PpuView {
    /// A CPU read of PPU register `addr % 8`: the value read, the PPU and the bus
    /// after it.
    pub open spec fn spec_cpu_read<B: PpuBus>(self, bus: B::V, addr: u16) -> (u8, PpuView, B::V) {
        let a = self.v & 0x3FFF;
        match addr % 8 {
            2 => (self.status, PpuView { status: self.status & 0x7F, w: false, ..self }, bus),
            4 => (byte_at(self.oam, self.oam_addr as int), self, bus),
            7 => if a >= PALETTE_START {
                let b = byte_at(self.palette_ram, palette_index(a));
                (b, PpuView { read_buf: b, ..self }, bus)
            } else {
                let (b, bus1) = B::spec_ppu_read(bus, a);
                (self.read_buf, PpuView { read_buf: b, v: data_inc(self.v, self.ctrl), ..self }, bus1)
            },
            _ => (0, self, bus),
        }
    }

    /// A CPU write of PPU register `addr % 8`.
    pub open spec fn spec_cpu_write<B: PpuBus>(self, bus: B::V, addr: u16, data: u8) -> (PpuView, B::V) {
        match addr % 8 {
            0 => (PpuView { ctrl: data, t: (self.t & !0x0C00u16) | (((data & 3) as u16) << 10u16), ..self }, bus),
            1 => (PpuView { mask: data, ..self }, bus),
            3 => (PpuView { oam_addr: data, ..self }, bus),
            4 => (PpuView {
                oam: put_byte(self.oam, self.oam_addr as int, data),
                oam_addr: ((self.oam_addr + 1) % 256) as u8,
                ..self
            }, bus),
            5 => if !self.w {
                (PpuView {
                    x: data & 7,
                    t: (self.t & !0x1Fu16) | ((data >> 3u8) as u16),
                    w: true,
                    ..self
                }, bus)
            } else {
                (PpuView {
                    t: (self.t & !0x73E0u16) | (((data & 7) as u16) << 12u16) | (((data >> 3u8) as u16) << 5u16),
                    w: false,
                    ..self
                }, bus)
            },
            6 => if !self.w {
                (PpuView { t: (self.t & 0x80FF) | (((data & 0x3F) as u16) << 8u16), w: true, ..self }, bus)
            } else {
                let t = (self.t & 0xFF00) | (data as u16);
                (PpuView { t: t, v: t, w: false, ..self }, bus)
            },
            7 => {
                let a = self.v & 0x3FFF;
                if a >= PALETTE_START {
                    (PpuView {
                        palette_ram: put_byte(self.palette_ram, palette_index(a), data),
                        v: data_inc(self.v, self.ctrl),
                        ..self
                    }, bus)
                } else {
                    (PpuView { v: data_inc(self.v, self.ctrl), ..self }, B::spec_ppu_write(bus, a, data))
                }
            },
            _ => (self, bus),
        }
    }
}

impl View for Ppu {
    type V = PpuView;

    open spec fn view(&self) -> PpuView {
        PpuView {
            ctrl: self.ctrl.data,
            mask: self.mask.data,
            status: self.status.data,
            v: self.v.data,
            t: self.t.data,
            w: self.w,
            x: self.x,
            read_buf: self.read_buf,
            palette_ram: self.palette_ram@,
            oam: self.oam@,
            oam_addr: self.oam_addr,
        }
    }
}

fn filled<T: Copy>(n: usize, val: T) -> (r: Vec<T>)
    ensures
        r@ == Seq::new(n as nat, |i: int| val),
{
    let mut v: Vec<T> = Vec::new();
    let mut i: usize = 0;
    while i < n
        invariant
            i <= n,
            v@ == Seq::new(i as nat, |k: int| val),
        decreases n - i,
    {
        v.push(val);
        i = i + 1;
        assert(v@ =~= Seq::new(i as nat, |k: int| val));
    }
    v
}

fn get_sprite(v: &Vec<SpriteInfo>, i: usize) -> (r: SpriteInfo)
    ensures
        r == sprite_at(v@, i as int),
{
    if i < v.len() { v[i] } else { SpriteInfo::empty() }
}

fn set_sprite(v: &mut Vec<SpriteInfo>, i: usize, s: SpriteInfo)
    ensures
        final(v)@ == (if i < old(v)@.len() { old(v)@.update(i as int, s) } else { old(v)@ }),
{
    if i < v.len() {
        v.set(i, s);
    }
}

impl Ppu {
    /// The sizes of the memories and the bounds of the position.
    pub open spec fn wf(&self) -> bool {
        &&& self.palette_ram@.len() == PALETTE_RAM_SIZE
        &&& self.oam@.len() == OAM_SIZE
        &&& self.sprite_infos@.len() == SPRITES_PER_ROW
        &&& self.sprite_patterns_0@.len() == SPRITES_PER_ROW
        &&& self.sprite_patterns_1@.len() == SPRITES_PER_ROW
        &&& self.row < NUM_ROWS
        &&& self.col < NUM_COLS
        &&& self.v.data < 0x8000 && self.t.data < 0x8000
    }

    /// A PPU at power-on: registers clear, OAM filled with 0xFF, at row 0, dot 0.
    pub fn new() -> (r: Ppu)
        ensures
            r.wf(),
            r.row == 0 && r.col == 0 && r.cycles == 0,
            r.status.data == 0 && r.ctrl.data == 0 && r.mask.data == 0,
            r.v.data == 0 && r.t.data == 0 && !r.w && r.x == 0 && !r.nmi,
            r.read_buf == 0 && r.oam_addr == 0,
            r.palette_ram@ == Seq::new(PALETTE_RAM_SIZE as nat, |i: int| 0u8),
            r.oam@ == Seq::new(OAM_SIZE as nat, |i: int| 0xFFu8),
            forall|i: int| 0 <= i < SPRITES_PER_ROW ==> #[trigger] r.sprite_infos@[i].fine_y == 0xFF,
    {
        Ppu {
            ctrl: PpuCtrl { data: 0 },
            mask: PpuMask { data: 0 },
            status: PpuStatus { data: 0 },
            v: VramAddr { data: 0 },
            t: VramAddr { data: 0 },
            w: false,
            x: 0,
            read_buf: 0,
            palette_ram: filled(PALETTE_RAM_SIZE, 0u8),
            nmi: false,
            bg_patt_shift_reg_0: 0,
            bg_patt_shift_reg_1: 0,
            bg_attr_shift_reg_0: 0,
            bg_attr_shift_reg_1: 0,
            bg_tile_num: 0,
            bg_attr: 0,
            bg_pattern_0: 0,
            bg_pattern_1: 0,
            oam: filled(OAM_SIZE, 0xFFu8),
            sprite_infos: filled(SPRITES_PER_ROW, SpriteInfo::empty()),
            sprite_patterns_0: filled(SPRITES_PER_ROW, 0u8),
            sprite_patterns_1: filled(SPRITES_PER_ROW, 0u8),
            oam_addr: 0,
            cycles: 0,
            row: 0,
            col: 0,
        }
    }

    /// Dots run since construction.
    pub fn cycles(&self) -> (r: u64)
        ensures
            r == self.cycles,
    {
        self.cycles
    }

    /// The NMI output: VBlank set and NMI enabled in PPUCTRL.
    pub fn nmi(&self) -> (r: bool)
        ensures
            r == self.nmi,
    {
        self.nmi
    }

    fn data_increment(&mut self)
        ensures
            *final(self) == (Ppu { v: VramAddr { data: data_inc(old(self).v.data, old(self).ctrl.data) }, ..*old(self) }),
    {
        let inc: u32 = if self.ctrl.increment_32() { 32 } else { 1 };
        self.v.data = ((self.v.data as u32 + inc) % 0x8000) as u16;
    }

    /// A CPU read of PPU register `addr % 8`: PPUSTATUS (clears VBlank and the
    /// write toggle), OAMDATA, or PPUDATA (palette directly, else the read buffer,
    /// which is refilled); 0 for the others.
    pub fn cpu_read<B: PpuBus>(&mut self, addr: u16, bus: &mut B) -> (r: u8)
        ensures
            (r, final(self)@, final(bus)@) == old(self)@.spec_cpu_read::<B>(old(bus)@, addr),
            old(self).wf() ==> final(self).wf(),
            Ppu::core_kept(old(self), final(self)),
    {
        match addr % 8 {
            2 => {
                let val = self.status.data;
                self.status.data = val & 0x7F;
                self.w = false;
                val
            },
            4 => get_byte(&self.oam, self.oam_addr as usize),
            7 => {
                let a = self.v.addr();
                if a >= PALETTE_START {
                    self.read_buf = get_byte(&self.palette_ram, get_palette_addr(a));
                    self.read_buf
                } else {
                    let val = self.read_buf;
                    self.read_buf = bus.ppu_read(a);
                    self.data_increment();
                    val
                }
            },
            _ => 0,
        }
    }

    /// A CPU write of PPU register `addr % 8`, with Loopy's rules for `t`, `v`,
    /// `x` and `w`.
    pub fn cpu_write<B: PpuBus>(&mut self, addr: u16, data: u8, bus: &mut B)
        ensures
            (final(self)@, final(bus)@) == old(self)@.spec_cpu_write::<B>(old(bus)@, addr, data),
            old(self).wf() ==> final(self).wf(),
            Ppu::core_kept(old(self), final(self)),
    {
        proof {
            if self.t.data < 0x8000 {
                lemma_port_bounds(self.t.data, data);
            }
        }
        match addr % 8 {
            0 => {
                self.ctrl.data = data;
                let t0 = self.t.data;
                self.t.set_n((data & 3) as u16);
                assert(((t0 & !0x0C00u16) | ((((data & 3) as u16) & 0x3) << 10u16)) == (t0 & !0x0C00u16) | (((data & 3) as u16)
                    << 10u16)) by (bit_vector);
            },
            1 => {
                self.mask.data = data;
            },
            3 => {
                self.oam_addr = data;
            },
            4 => {
                set_byte(&mut self.oam, self.oam_addr as usize, data);
                self.oam_addr = if self.oam_addr == 255 { 0 } else { self.oam_addr + 1 };
            },
            5 => {
                if !self.w {
                    self.x = data & 7;
                    let t0 = self.t.data;
                    self.t.set_coarse_x((data >> 3u8) as u16);
                    assert(((t0 & !0x1Fu16) | (((data >> 3u8) as u16) & 0x1F)) == (t0 & !0x1Fu16) | ((data >> 3u8) as u16))
                        by (bit_vector);
                    self.w = true;
                } else {
                    let t0 = self.t.data;
                    self.t.set_fine_y((data & 7) as u16);
                    self.t.set_coarse_y((data >> 3u8) as u16);
                    assert(((((t0 & !0x7000u16) | ((((data & 7) as u16) & 0x7) << 12u16)) & !0x03E0u16) | (
                    (((data >> 3u8) as u16) & 0x1F) << 5u16)) == (t0 & !0x73E0u16) | (((data & 7) as u16) << 12u16) | (
                    ((data >> 3u8) as u16) << 5u16)) by (bit_vector);
                    self.w = false;
                }
            },
            6 => {
                if !self.w {
                    let t0 = self.t.data;
                    self.t.set_addr_hi((data & 0x3F) as u16);
                    let fy = self.t.fine_y();
                    self.t.set_fine_y(fy & 0x3);
                    assert(((((t0 & !0x3F00u16) | ((((data & 0x3F) as u16) & 0x3F) << 8u16)) & !0x7000u16) | (
                    (((((t0 & !0x3F00u16) | ((((data & 0x3F) as u16) & 0x3F) << 8u16)) >> 12u16) & 0x7) & 0x3 & 0x7)
                        << 12u16)) == (t0 & 0x80FF) | (((data & 0x3F) as u16) << 8u16)) by (bit_vector);
                    self.w = true;
                } else {
                    let t0 = self.t.data;
                    self.t.set_addr_low(data as u16);
                    assert(((t0 & !0x00FFu16) | ((data as u16) & 0xFF)) == (t0 & 0xFF00) | (data as u16)) by (bit_vector);
                    self.v.data = self.t.data;
                    self.w = false;
                }
            },
            7 => {
                let a = self.v.addr();
                if a >= PALETTE_START {
                    set_byte(&mut self.palette_ram, get_palette_addr(a), data);
                } else {
                    bus.ppu_write(a, data);
                }
                self.data_increment();
            },
            _ => {},
        }
    }

    pub open spec fn spec_core(&self) -> PpuCore {
        PpuCore {
            row: self.row,
            col: self.col,
            cycles: self.cycles,
            nmi: self.nmi,
            shift_regs: (self.bg_patt_shift_reg_0, self.bg_patt_shift_reg_1, self.bg_attr_shift_reg_0, self.bg_attr_shift_reg_1),
            latches: (self.bg_tile_num, self.bg_attr, self.bg_pattern_0, self.bg_pattern_1),
            sprite_infos: self.sprite_infos@,
            sprite_patterns: (self.sprite_patterns_0@, self.sprite_patterns_1@),
        }
    }

    /// The fields that the CPU port never touches are equal: the position,
    /// counters, NMI output, background pipeline and sprite row buffers.
    pub open spec fn core_kept(a: &Ppu, b: &Ppu) -> bool {
        &&& a.row == b.row && a.col == b.col && a.cycles == b.cycles && a.nmi == b.nmi
        &&& a.bg_patt_shift_reg_0 == b.bg_patt_shift_reg_0 && a.bg_patt_shift_reg_1 == b.bg_patt_shift_reg_1
        &&& a.bg_attr_shift_reg_0 == b.bg_attr_shift_reg_0 && a.bg_attr_shift_reg_1 == b.bg_attr_shift_reg_1
        &&& a.bg_tile_num == b.bg_tile_num && a.bg_attr == b.bg_attr
        &&& a.bg_pattern_0 == b.bg_pattern_0 && a.bg_pattern_1 == b.bg_pattern_1
        &&& a.sprite_infos == b.sprite_infos
        &&& a.sprite_patterns_0 == b.sprite_patterns_0 && a.sprite_patterns_1 == b.sprite_patterns_1
    }

    fn rendering_enabled(&self) -> (r: bool)
        ensures
            r == self.spec_rendering(),
    {
        self.mask.bg_enabled() || self.mask.sprites_enabled()
    }

    /// Background or sprite rendering is on.
    pub open spec fn spec_rendering(&self) -> bool {
        self.mask.data & 0x08 != 0 || self.mask.data & 0x10 != 0
    }

    /// The four background shift registers after one rendering dot's shift.
    pub open spec fn shifted(p: Ppu) -> Ppu {
        Ppu {
            bg_patt_shift_reg_0: (p.bg_patt_shift_reg_0 << 1u16) | 1,
            bg_patt_shift_reg_1: (p.bg_patt_shift_reg_1 << 1u16) | 1,
            bg_attr_shift_reg_0: (p.bg_attr_shift_reg_0 << 1u16) | 1,
            bg_attr_shift_reg_1: (p.bg_attr_shift_reg_1 << 1u16) | 1,
            ..p
        }
    }

    /// The shift registers' low bytes reloaded from the fetched tile's pattern
    /// bytes and attribute bits.
    pub open spec fn loaded(p: Ppu) -> Ppu {
        Ppu {
            bg_patt_shift_reg_0: (p.bg_patt_shift_reg_0 & 0xFF00) | (p.bg_pattern_0 as u16),
            bg_patt_shift_reg_1: (p.bg_patt_shift_reg_1 & 0xFF00) | (p.bg_pattern_1 as u16),
            bg_attr_shift_reg_0: (p.bg_attr_shift_reg_0 & 0xFF00) | (if p.bg_attr & 1 == 1 { 0xFFu16 } else { 0 }),
            bg_attr_shift_reg_1: (p.bg_attr_shift_reg_1 & 0xFF00) | (if p.bg_attr & 2 == 2 { 0xFFu16 } else { 0 }),
            ..p
        }
    }

    /// The state whose pixel a visible dot draws: the shift registers shifted,
    /// and reloaded on the first dot of a tile, when rendering is on.
    pub open spec fn pre_draw(p: Ppu) -> Ppu {
        if p.spec_rendering() {
            if (p.col - 1) % 8 == 0 { Ppu::loaded(Ppu::shifted(p)) } else { Ppu::shifted(p) }
        } else {
            p
        }
    }

    /// The bit of a background shift register that fine X selects.
    pub open spec fn bg_bit(&self, reg: u16) -> int {
        ((reg >> ((15 - self.x % 8) as u16)) % 2) as int
    }

    /// The background's palette index at this dot.
    pub open spec fn bg_palette_addr(&self) -> u16 {
        (self.bg_bit(self.bg_patt_shift_reg_0) + 2 * self.bg_bit(self.bg_patt_shift_reg_1) + 4 * self.bg_bit(
            self.bg_attr_shift_reg_0,
        ) + 8 * self.bg_bit(self.bg_attr_shift_reg_1)) as u16
    }

    /// The first sprite from slot `k` on with an opaque pixel at this dot, and its
    /// palette index (sprite bit set); an empty slot and index 0 if none.
    pub open spec fn sprite_pixel_from(&self, k: int) -> (SpriteInfo, u16) {
        sprite_pixel_at(self.sprite_infos@, self.sprite_patterns_0@, self.sprite_patterns_1@, self.col, k)
    }

    /// The colour of palette RAM entry `addr`.
    pub open spec fn color_of(&self, addr: u16) -> (u8, u8, u8) {
        rgb_spec(byte_at(self.palette_ram@, palette_index(addr)))
    }

    /// The colour of this dot and whether it is a sprite-0 hit. A layer is
    /// transparent where its pattern bits are 0, or in columns 1 to 8 where
    /// PPUMASK hides it; the multiplexer chooses among the enabled opaque layers
    /// and the backdrop.
    pub open spec fn spec_pixel(&self) -> ((u8, u8, u8), bool) {
        let x = self.col - 1;
        let bg = self.bg_palette_addr();
        let (sp, sa) = self.sprite_pixel_from(0);
        let bg_opaque = bg % 4 != 0 && (x >= 8 || self.mask.data & 0x02 != 0);
        let sp_opaque = sa % 4 != 0 && (x >= 8 || self.mask.data & 0x04 != 0);
        let hit = bg_opaque && sp_opaque && sp.sprite_0 && self.spec_rendering();
        let c = match mux_spec(
            (sp.attr.data / 32) % 2 == 0,
            sp_opaque && self.mask.data & 0x10 != 0,
            bg_opaque && self.mask.data & 0x08 != 0,
        ) {
            PixelSource::Sprite => self.color_of(sa),
            PixelSource::Background => self.color_of(bg),
            PixelSource::Backdrop => self.color_of(0),
        };
        (c, hit)
    }

    /// The frame-buffer offset of this dot's first colour byte.
    pub open spec fn pixel_offset(&self) -> int {
        3 * (self.row * 256 + self.col - 1)
    }

    fn fetch_bg_tile_num<B: PpuBus>(&mut self, bus: &mut B)
        ensures
            *final(self) == (Ppu { bg_tile_num: final(self).bg_tile_num, ..*old(self) }),
    {
        let a = 0x2000 | self.v.nt_addr();
        self.bg_tile_num = bus.ppu_read(a);
    }

    fn fetch_bg_attr<B: PpuBus>(&mut self, bus: &mut B)
        ensures
            *final(self) == (Ppu { bg_attr: final(self).bg_attr, ..*old(self) }),
    {
        let addr = AttrAddr::of(self.v);
        let attr = bus.ppu_read(addr.data());
        let cy = self.v.coarse_y();
        let cx = self.v.coarse_x();
        assert((((cy & 2) << 1u16) | (cx & 2)) < 8) by (bit_vector);
        let shift: u8 = (((cy & 2) << 1u16) | (cx & 2)) as u8;
        self.bg_attr = attr >> shift;
    }

    fn fetch_bg_pattern<B: PpuBus>(&mut self, bus: &mut B, plane: u8)
        requires
            plane < 2,
        ensures
            *final(self) == (Ppu {
                bg_pattern_0: final(self).bg_pattern_0,
                bg_pattern_1: final(self).bg_pattern_1,
                ..*old(self)
            }),
    {
        let addr = PatternAddr::of(self.ctrl.bg_table(), self.bg_tile_num, plane, self.v.fine_y());
        let b = bus.ppu_read(addr.data);
        if plane == 0 {
            self.bg_pattern_0 = b;
        } else {
            self.bg_pattern_1 = b;
        }
    }

    fn update_shift_regs(&mut self)
        ensures
            *final(self) == Ppu::shifted(*old(self)),
    {
        self.bg_patt_shift_reg_0 = (self.bg_patt_shift_reg_0 << 1u16) | 1;
        self.bg_patt_shift_reg_1 = (self.bg_patt_shift_reg_1 << 1u16) | 1;
        self.bg_attr_shift_reg_0 = (self.bg_attr_shift_reg_0 << 1u16) | 1;
        self.bg_attr_shift_reg_1 = (self.bg_attr_shift_reg_1 << 1u16) | 1;
    }

    fn load_shift_regs(&mut self)
        ensures
            *final(self) == Ppu::loaded(*old(self)),
    {
        self.bg_patt_shift_reg_0 = (self.bg_patt_shift_reg_0 & 0xFF00) | self.bg_pattern_0 as u16;
        self.bg_patt_shift_reg_1 = (self.bg_patt_shift_reg_1 & 0xFF00) | self.bg_pattern_1 as u16;
        let a0: u16 = if self.bg_attr & 1 == 1 { 0xFF } else { 0 };
        let a1: u16 = if self.bg_attr & 2 == 2 { 0xFF } else { 0 };
        self.bg_attr_shift_reg_0 = (self.bg_attr_shift_reg_0 & 0xFF00) | a0;
        self.bg_attr_shift_reg_1 = (self.bg_attr_shift_reg_1 & 0xFF00) | a1;
    }

    /// Advances coarse X, wrapping into the other horizontal nametable.
    pub fn inc_v_hor(&mut self)
        ensures
            *final(self) == (Ppu { v: VramAddr { data: inc_hor(old(self).v.data) }, ..*old(self) }),
    {
        let d = self.v.data;
        if d & 0x1F == 31 {
            self.v.data = (d & !0x1Fu16) ^ 0x0400;
        } else {
            assert(d & 0x1F != 31 ==> d < 0xFFFF) by (bit_vector);
            self.v.data = d + 1;
        }
    }

    /// Advances fine Y, then coarse Y (wrapping at 29 into the other vertical
    /// nametable, at 31 without).
    pub fn inc_v_ver(&mut self)
        ensures
            *final(self) == (Ppu { v: VramAddr { data: inc_ver(old(self).v.data) }, ..*old(self) }),
    {
        let d = self.v.data;
        if (d >> 12u16) & 7 < 7 {
            assert((d >> 12u16) & 7 < 7 ==> d <= 0xEFFF) by (bit_vector);
            self.v.data = d + 0x1000;
        } else {
            let d1 = d & !0x7000u16;
            let cy = (d >> 5u16) & 0x1F;
            if cy == 29 {
                self.v.data = (d1 & !0x03E0u16) ^ 0x0800;
            } else if cy == 31 {
                self.v.data = d1 & !0x03E0u16;
            } else {
                assert(((d >> 5u16) & 0x1F) != 31 ==> (d & !0x7000u16) <= 0xFFDF) by (bit_vector);
                self.v.data = d1 + 0x20;
            }
        }
    }

    /// Selects the sprites of OAM whose band covers the current row, in OAM order:
    /// the first eight fill the row buffer, a ninth sets the overflow flag.
    fn sprite_eval(&mut self)
        ensures
            ({
                let tall = old(self).ctrl.data & 0x20 != 0;
                let sel = sprites_in_range(old(self).oam@, old(self).row, tall, 64);
                &&& final(self).status.data == (if sel.len() > 8 {
                    old(self).status.data | 0x20
                } else {
                    old(self).status.data
                })
                &&& *final(self) == (Ppu { status: final(self).status, sprite_infos: final(self).sprite_infos, ..*old(self) })
                &&& final(self).sprite_infos@.len() == old(self).sprite_infos@.len()
                &&& forall|j: int|
                    0 <= j < old(self).sprite_infos@.len() ==> #[trigger] final(self).sprite_infos@[j] == (if j < sel.len()
                        && j < 8 {
                        sprite_info_of(old(self).oam@, old(self).row, tall, old(self).ctrl.data, sel[j])
                    } else {
                        old(self).sprite_infos@[j]
                    })
            }),
    {
        let mut oam_idx: usize = 0;
        let mut found: usize = 0;
        let tall = self.ctrl.sprites_8x16();
        let y_max: u32 = if tall { 15 } else { 7 };
        let ghost start = *self;
        let ghost sel64 = sprites_in_range(start.oam@, start.row, tall, 64);
        let mut overflow = false;
        while oam_idx < OAM_SIZE && !overflow
            invariant
                *self == (Ppu { status: self.status, sprite_infos: self.sprite_infos, ..start }),
                self.sprite_infos@.len() == start.sprite_infos@.len(),
                oam_idx % 4 == 0,
                oam_idx <= OAM_SIZE,
                found <= SPRITES_PER_ROW,
                y_max == (if tall { 15u32 } else { 7u32 }),
                tall == (start.ctrl.data & 0x20 != 0),
                !overflow ==> self.status == start.status,
                !overflow ==> found == sprites_in_range(start.oam@, start.row, tall, oam_idx as int / 4).len(),
                !overflow ==> sprites_in_range(start.oam@, start.row, tall, oam_idx as int / 4) == sel64.subrange(
                    0,
                    found as int,
                ),
                overflow ==> self.status.data == start.status.data | 0x20 && sel64.len() > 8 && found == 8,
                found <= sel64.len(),
                sel64 == sprites_in_range(start.oam@, start.row, tall, 64),
                forall|j: int|
                    0 <= j < self.sprite_infos@.len() ==> #[trigger] self.sprite_infos@[j] == (if j < found {
                        sprite_info_of(start.oam@, start.row, tall, start.ctrl.data, sel64[j])
                    } else {
                        start.sprite_infos@[j]
                    }),
            decreases OAM_SIZE - oam_idx,
        {
            proof {
                lemma_sel_prefix(start.oam@, start.row, tall, oam_idx as int / 4 + 1, 64);
                assert(sprites_in_range(start.oam@, start.row, tall, oam_idx as int / 4 + 1).subrange(0, found as int)
                    =~= sprites_in_range(start.oam@, start.row, tall, oam_idx as int / 4)) by {
                    assert((oam_idx as int / 4 + 1) - 1 == oam_idx as int / 4);
                }
            }
            let y = get_byte(&self.oam, oam_idx);
            if self.row >= y as u32 && self.row - y as u32 <= y_max {
                proof {
                    lemma_sel_prefix(start.oam@, start.row, tall, oam_idx as int / 4 + 1, 64);
                    let s1 = sprites_in_range(start.oam@, start.row, tall, oam_idx as int / 4 + 1);
                    assert(s1 == sprites_in_range(start.oam@, start.row, tall, oam_idx as int / 4).push(oam_idx as int / 4));
                    assert(sel64.subrange(0, s1.len() as int) == s1);
                    assert(s1[found as int] == oam_idx as int / 4);
                    assert(sel64.subrange(0, s1.len() as int)[found as int] == sel64[found as int]);
                }
                if found < SPRITES_PER_ROW {
                    let mut fine_y = self.row - y as u32;
                    let t = get_byte(&self.oam, oam_idx + 1);
                    let mut tile: u8 = if tall { t & 0xFE } else { t };
                    let table: u8 = if tall { t & 1 } else { self.ctrl.sprite_table() };
                    let attr = SpriteAttr { data: get_byte(&self.oam, oam_idx + 2) };
                    let x = get_byte(&self.oam, oam_idx + 3);
                    if attr.flip_ver() {
                        fine_y = y_max - fine_y;
                    }
                    if fine_y > 7 {
                        assert((t & 0xFE) < 0xFF) by (bit_vector);
                        tile = tile + 1;
                    }
                    let info = SpriteInfo {
                        x_pos: x,
                        y_pos: y,
                        fine_y: fine_y as u8,
                        pattern_table: table,
                        tile,
                        attr,
                        sprite_0: oam_idx == 0,
                    };
                    assert(info == sprite_info_of(start.oam@, start.row, tall, start.ctrl.data, oam_idx as int / 4));
                    set_sprite(&mut self.sprite_infos, found, info);
                    found = found + 1;
                    proof {
                        let s1 = sprites_in_range(start.oam@, start.row, tall, oam_idx as int / 4 + 1);
                        assert(s1 =~= sel64.subrange(0, found as int));
                    }
                } else {
                    let s0 = self.status.data;
                    self.status.data = s0 | 0x20;
                    overflow = true;
                }
            } else {
                proof {
                    assert(sprites_in_range(start.oam@, start.row, tall, oam_idx as int / 4 + 1) == sprites_in_range(
                        start.oam@,
                        start.row,
                        tall,
                        oam_idx as int / 4,
                    ));
                }
            }
            oam_idx = oam_idx + 4;
        }
        proof {
            if !overflow {
                assert(oam_idx == OAM_SIZE);
                assert(sel64.subrange(0, found as int) =~= sel64);
            }
        }
    }

    fn fetch_sprite_pattern<B: PpuBus>(&mut self, bus: &mut B, plane: u8, idx: usize)
        requires
            plane < 2,
            idx < SPRITES_PER_ROW,
        ensures
            *final(self) == (Ppu {
                sprite_patterns_0: final(self).sprite_patterns_0,
                sprite_patterns_1: final(self).sprite_patterns_1,
                ..*old(self)
            }),
            final(self).sprite_patterns_0@.len() == old(self).sprite_patterns_0@.len(),
            final(self).sprite_patterns_1@.len() == old(self).sprite_patterns_1@.len(),
    {
        let info = get_sprite(&self.sprite_infos, idx);
        let addr = PatternAddr::of(info.pattern_table % 2, info.tile, plane, info.fine_y as u16);
        let b = bus.ppu_read(addr.data);
        if plane == 0 {
            set_byte(&mut self.sprite_patterns_0, idx, b);
        } else {
            set_byte(&mut self.sprite_patterns_1, idx, b);
        }
    }

    fn get_sprite_pixel_info(&self) -> (r: (SpriteInfo, PaletteAddr))
        requires
            self.col >= 1,
        ensures
            (r.0, r.1.data) == self.sprite_pixel_from(0),
    {
        let mut idx: usize = 0;
        let px = self.col - 1;
        while idx < SPRITES_PER_ROW
            invariant
                px == self.col - 1,
                idx <= SPRITES_PER_ROW,
                self.sprite_pixel_from(0) == self.sprite_pixel_from(idx as int),
            decreases SPRITES_PER_ROW - idx,
        {
            let sprite = get_sprite(&self.sprite_infos, idx);
            if px >= sprite.x_pos as u32 && px - (sprite.x_pos as u32) < 8 && sprite.fine_y != 0xFF {
                let mut fx: u32 = px - sprite.x_pos as u32;
                if sprite.attr.flip_hor() {
                    fx = 7 - fx;
                }
                let p0 = (get_byte(&self.sprite_patterns_0, idx) >> ((7 - fx) as u8)) % 2;
                let p1 = (get_byte(&self.sprite_patterns_1, idx) >> ((7 - fx) as u8)) % 2;
                if p0 != 0 || p1 != 0 {
                    let pal = sprite.attr.palette();
                    return (sprite, PaletteAddr::of(p0, p1, pal % 2, pal / 2, 1));
                }
            }
            idx = idx + 1;
        }
        (SpriteInfo::empty(), PaletteAddr { data: 0 })
    }

    fn fine_x(&self, val: u16) -> (r: u8)
        ensures
            r < 2,
            r == self.bg_bit(val),
    {
        let sh: u16 = 15 - (self.x % 8) as u16;
        ((val >> sh) % 2) as u8
    }

    fn get_color(&self, addr: PaletteAddr) -> (r: (u8, u8, u8))
        ensures
            r == self.color_of(addr.data),
    {
        let i = get_palette_addr(addr.data);
        rgb(get_byte(&self.palette_ram, i))
    }

    /// Writes the colour of the current dot into the frame and records a sprite-0
    /// hit in PPUSTATUS bit 6.
    fn draw_pixel(&mut self, frame: &mut Vec<u8>)
        requires
            old(self).row < DISPLAY_HEIGHT,
            1 <= old(self).col <= DISPLAY_WIDTH,
            old(frame)@.len() == FRAME_SIZE_BYTES,
        ensures
            ({
                let (c, hit) = old(self).spec_pixel();
                let i = old(self).pixel_offset();
                &&& final(frame)@ == old(frame)@.update(i, c.0).update(i + 1, c.1).update(i + 2, c.2)
                &&& *final(self) == (Ppu {
                    status: PpuStatus { data: if hit { old(self).status.data | 0x40 } else { old(self).status.data } },
                    ..*old(self)
                })
            }),
    {
        let x = self.col - 1;
        let y = self.row;
        let idx: usize = ((y * DISPLAY_WIDTH + x) * 3) as usize;
        let bg_addr = PaletteAddr::of(
            self.fine_x(self.bg_patt_shift_reg_0),
            self.fine_x(self.bg_patt_shift_reg_1),
            self.fine_x(self.bg_attr_shift_reg_0),
            self.fine_x(self.bg_attr_shift_reg_1),
            0,
        );
        let (sprite_info, sprite_addr) = self.get_sprite_pixel_info();
        let bg_opaque = bg_addr.is_opaque() && (x >= 8 || self.mask.bg_left_show());
        let sprite_opaque = sprite_addr.is_opaque() && (x >= 8 || self.mask.sprite_left_show());
        if bg_opaque && sprite_opaque && sprite_info.sprite_0 && self.rendering_enabled() {
            self.status.data = self.status.data | 0x40;
        }
        let fg = sprite_info.attr.priority() == 0;
        let s = sprite_opaque && self.mask.sprites_enabled();
        let b = bg_opaque && self.mask.bg_enabled();
        let (r, g, bl) = match mux_pixel(fg, s, b) {
            PixelSource::Sprite => self.get_color(sprite_addr),
            PixelSource::Background => self.get_color(bg_addr),
            PixelSource::Backdrop => self.get_color(PaletteAddr { data: 0 }),
        };
        frame.set(idx, r);
        frame.set(idx + 1, g);
        frame.set(idx + 2, bl);
    }

    /// One dot: background fetches and shifts, `v` increments and copies from
    /// `t`, sprite evaluation and fetches, the pixel, VBlank set at (241, 1) and
    /// cleared with the sprite flags at (261, 1), then the position advances and
    /// the NMI output follows VBlank and PPUCTRL bit 7.
    #[verifier::rlimit(100)]
    pub fn tick<B: PpuBus>(&mut self, bus: &mut B, frame: &mut Vec<u8>)
        requires
            old(frame)@.len() == FRAME_SIZE_BYTES,
        ensures
            old(self).wf() ==> final(self).wf(),
            final(frame)@.len() == FRAME_SIZE_BYTES,
            final(self).col == (old(self).col + 1) % NUM_COLS as int,
            final(self).row == (if (old(self).col + 1) % NUM_COLS as int == 0 { (old(self).row + 1) % NUM_ROWS as int } else { old(self).row as int }),
            final(self).cycles == inc64(old(self).cycles),
            final(self).ctrl == old(self).ctrl && final(self).mask == old(self).mask && final(self).x == old(self).x,
            final(self).oam == old(self).oam && final(self).palette_ram == old(self).palette_ram,
            final(self).nmi == (final(self).status.data >= 0x80 && final(self).ctrl.data >= 0x80),
            final(self).t == old(self).t,
            final(self).v.data == v_after_dot(
                old(self).v.data,
                old(self).t.data,
                old(self).row,
                old(self).col,
                old(self).spec_rendering(),
            ),
            ({
                let visible = old(self).row < DISPLAY_HEIGHT && 1 <= old(self).col <= DISPLAY_WIDTH;
                let (c, hit) = Ppu::pre_draw(*old(self)).spec_pixel();
                let i = old(self).pixel_offset();
                final(frame)@ == (if visible {
                    old(frame)@.update(i, c.0).update(i + 1, c.1).update(i + 2, c.2)
                } else {
                    old(frame)@
                })
            }),
            ({
                let row = old(self).row;
                let col = old(self).col;
                let visible = row < DISPLAY_HEIGHT && 1 <= col <= DISPLAY_WIDTH;
                let hit = Ppu::pre_draw(*old(self)).spec_pixel().1;
                let sel = sprites_in_range(old(self).oam@, row, old(self).ctrl.data & 0x20 != 0, 64);
                let s = old(self).status.data;
                final(self).status.data == (if visible && hit {
                    s | 0x40
                } else if col == 257 && row < DISPLAY_HEIGHT && sel.len() > 8 {
                    s | 0x20
                } else if row == 241 && col == 1 {
                    s | 0x80
                } else if row == 261 && col == 1 {
                    s & 0x1F
                } else {
                    s
                })
            }),
            old(self).col != 257 ==> final(self).sprite_infos == old(self).sprite_infos,
            old(self).col == 257 ==> final(self).sprite_infos@.len() == old(self).sprite_infos@.len(),
            ({
                let row = old(self).row;
                let tall = old(self).ctrl.data & 0x20 != 0;
                let sel = sprites_in_range(old(self).oam@, row, tall, 64);
                old(self).col == 257 ==> forall|j: int|
                    0 <= j < old(self).sprite_infos@.len() ==> #[trigger] final(self).sprite_infos@[j] == (if row
                        < DISPLAY_HEIGHT && j < sel.len() && j < 8 {
                        sprite_info_of(old(self).oam@, row, tall, old(self).ctrl.data, sel[j])
                    } else if j < 8 {
                        empty_sprite()
                    } else {
                        old(self).sprite_infos@[j]
                    })
            }),
    {
        let ghost start = *self;
        proof {
            if start.wf() {
                lemma_v_after_dot_bounded(start.v.data, start.t.data, start.row, start.col, start.spec_rendering());
            }
        }
        let rendering = self.rendering_enabled();
        let row = self.row;
        let col = self.col;
        if (row < DISPLAY_HEIGHT || row == NUM_ROWS - 1) && rendering {
            if (col >= 1 && col <= DISPLAY_WIDTH) || (col >= 321 && col <= 336) {
                self.update_shift_regs();
                let phase = (col - 1) % 8;
                if phase == 0 {
                    self.load_shift_regs();
                    self.fetch_bg_tile_num(bus);
                } else if phase == 2 {
                    self.fetch_bg_attr(bus);
                } else if phase == 4 {
                    self.fetch_bg_pattern(bus, 0);
                } else if phase == 6 {
                    self.fetch_bg_pattern(bus, 1);
                } else if phase == 7 {
                    self.inc_v_hor();
                }
            }
            if col == DISPLAY_WIDTH {
                self.inc_v_ver();
            }
            if col == DISPLAY_WIDTH + 1 {
                self.load_shift_regs();
                self.v.data = (self.v.data & !0x041Fu16) | (self.t.data & 0x041F);
            }
            if col >= 258 && col <= 320 {
                let idx = ((col - 258) / 8) as usize;
                let phase = (col - 258) % 8;
                if phase == 4 {
                    self.fetch_sprite_pattern(bus, 0, idx);
                } else if phase == 6 {
                    self.fetch_sprite_pattern(bus, 1, idx);
                }
            }
        }
        let ghost mid = *self;
        proof {
            if row < DISPLAY_HEIGHT && 1 <= col <= DISPLAY_WIDTH {
                let q = Ppu::pre_draw(start);
                assert(mid.bg_patt_shift_reg_0 == q.bg_patt_shift_reg_0);
                assert(mid.bg_patt_shift_reg_1 == q.bg_patt_shift_reg_1);
                assert(mid.bg_attr_shift_reg_0 == q.bg_attr_shift_reg_0);
                assert(mid.bg_attr_shift_reg_1 == q.bg_attr_shift_reg_1);
                lemma_pixel_inputs(mid, q);
            }
        }
        if col == DISPLAY_WIDTH + 1 {
            let mut k: usize = 0;
            while k < SPRITES_PER_ROW
                invariant
                    *self == (Ppu { sprite_infos: self.sprite_infos, ..mid }),
                    self.sprite_infos@.len() == mid.sprite_infos@.len(),
                    k <= SPRITES_PER_ROW,
                    forall|j: int|
                        0 <= j < self.sprite_infos@.len() ==> #[trigger] self.sprite_infos@[j] == (if j < k {
                            empty_sprite()
                        } else {
                            mid.sprite_infos@[j]
                        }),
                decreases SPRITES_PER_ROW - k,
            {
                set_sprite(&mut self.sprite_infos, k, SpriteInfo::empty());
                k = k + 1;
            }
            assert(mid.sprite_infos == start.sprite_infos);
            if row < DISPLAY_HEIGHT {
                self.sprite_eval();
            }
        }
        let s1 = self.status.data;
        if row == DISPLAY_HEIGHT + 1 && col == 1 {
            self.status.data = s1 | 0x80;
        }
        if row == NUM_ROWS - 1 && col == 1 {
            self.status.data = s1 & 0x1F;
        }
        if row == NUM_ROWS - 1 && rendering {
            self.v.data = (self.v.data & !0x7BE0u16) | (self.t.data & 0x7BE0);
        }
        if row < DISPLAY_HEIGHT && col >= 1 && col <= DISPLAY_WIDTH {
            self.draw_pixel(frame);
        }
        self.col = ((col as u64 + 1) % NUM_COLS as u64) as u32;
        if self.col == 0 {
            self.row = ((row as u64 + 1) % NUM_ROWS as u64) as u32;
        }
        self.nmi = self.status.data >= 0x80 && self.ctrl.nmi_enable();
        self.cycles = if self.cycles == u64::MAX { 0 } else { self.cycles + 1 };
    }
}

} // verus!
