//! Laws of the PPU model: the dot position cycles through the frame, Loopy's
//! increments, palette aliasing and the PPUADDR write pair.
use vstd::prelude::*;
use crate::ppu::{CYCLES_PER_FRAME, NUM_COLS, NUM_ROWS, PpuBus, PpuView, inc_hor, inc_ver, palette_index};

verus! {

/// The dot after `(row, col)`.
pub open spec fn next_pos(row: int, col: int) -> (int, int) {
    let c = (col + 1) % NUM_COLS as int;
    (if c == 0 { (row + 1) % NUM_ROWS as int } else { row }, c)
}

/// The dot `k` dots after `(row, col)`.
pub open spec fn pos_after(row: int, col: int, k: nat) -> (int, int)
    decreases k,
{
    if k == 0 {
        (row, col)
    } else {
        let (r, c) = pos_after(row, col, (k - 1) as nat);
        next_pos(r, c)
    }
}

proof fn lemma_pos_index(row: int, col: int, k: nat)
    requires
        0 <= row < NUM_ROWS,
        0 <= col < NUM_COLS,
    ensures
        ({
            let (r, c) = pos_after(row, col, k);
            &&& 0 <= r < NUM_ROWS && 0 <= c < NUM_COLS
            &&& r * 341 + c == (row * 341 + col + k) % (CYCLES_PER_FRAME as int)
        }),
    decreases k,
{
    if k > 0 {
        lemma_pos_index(row, col, (k - 1) as nat);
        let (r, c) = pos_after(row, col, (k - 1) as nat);
        vstd::arithmetic::div_mod::lemma_add_mod_noop(row * 341 + col + k - 1, 1, 89342);
        vstd::arithmetic::div_mod::lemma_small_mod(1, 89342);
        assert(r * 341 + c < 89342) by (nonlinear_arith)
            requires 0 <= r < 262 && 0 <= c < 341;
        assert(r * 341 + c >= 0) by (nonlinear_arith)
            requires 0 <= r < 262 && 0 <= c < 341;
    }
}

/// A frame is 341 dots by 262 rows: after 89,342 dots the PPU is back at the dot
/// where it started.
pub proof fn law_frame_length(row: int, col: int)
    requires
        0 <= row < NUM_ROWS,
        0 <= col < NUM_COLS,
    ensures
        pos_after(row, col, CYCLES_PER_FRAME as nat) == (row, col),
{
    lemma_pos_index(row, col, CYCLES_PER_FRAME as nat);
    let (r, c) = pos_after(row, col, CYCLES_PER_FRAME as nat);
    vstd::arithmetic::div_mod::lemma_mod_add_multiples_vanish(row * 341 + col, 89342);
    assert(row * 341 + col < 89342) by (nonlinear_arith)
        requires 0 <= row < 262 && 0 <= col < 341;
    vstd::arithmetic::div_mod::lemma_small_mod((row * 341 + col) as nat, 89342);
    assert(r == row && c == col) by (nonlinear_arith)
        requires r * 341 + c == row * 341 + col, 0 <= r < 262, 0 <= c < 341, 0 <= row < 262, 0 <= col < 341;
}

/// The horizontal increment: coarse X counts through 0..31, the horizontal
/// nametable bit toggles when it wraps, and nothing else changes.
pub proof fn law_inc_hor(d: u16)
    ensures
        inc_hor(d) & 0x1F == ((d & 0x1F) + 1) % 32,
        (inc_hor(d) >> 10u16) & 1 == (if d & 0x1F == 31 { ((d >> 10u16) & 1) ^ 1 } else { (d >> 10u16) & 1 }),
        inc_hor(d) & !0x041Fu16 == d & !0x041Fu16,
{
    if d & 0x1F == 31 {
        assert(((d & !0x1Fu16) ^ 0x0400) & 0x1F == 0 && (((d & !0x1Fu16) ^ 0x0400) >> 10u16) & 1 == ((d >> 10u16)
            & 1) ^ 1 && ((d & !0x1Fu16) ^ 0x0400) & !0x041Fu16 == d & !0x041Fu16) by (bit_vector)
            requires d & 0x1F == 31;
    } else {
        assert(((d + 1) as u16) & 0x1F == (d & 0x1F) + 1 && (((d + 1) as u16) >> 10u16) & 1 == (d >> 10u16) & 1
            && ((d + 1) as u16) & !0x041Fu16 == d & !0x041Fu16) by (bit_vector)
            requires d & 0x1F != 31;
        assert(d & 0x1F < 31) by (bit_vector)
            requires d & 0x1F != 31;
    }
}

/// The vertical increment: fine Y counts through 0..7; on its wrap coarse Y
/// advances, wrapping at 29 to 0 with the vertical nametable bit toggled and at
/// 31 to 0 without; coarse X and the horizontal nametable bit never change.
pub proof fn law_inc_ver(d: u16)
    ensures
        inc_ver(d) & 0x041F == d & 0x041F,
        (d >> 12u16) & 7 < 7 ==> (inc_ver(d) >> 12u16) & 7 == ((d >> 12u16) & 7) + 1 && (inc_ver(d) >> 5u16) & 0x1F
            == (d >> 5u16) & 0x1F,
        (d >> 12u16) & 7 == 7 ==> (inc_ver(d) >> 12u16) & 7 == 0,
        (d >> 12u16) & 7 == 7 && (d >> 5u16) & 0x1F == 29 ==> (inc_ver(d) >> 5u16) & 0x1F == 0 && (inc_ver(d)
            >> 11u16) & 1 == ((d >> 11u16) & 1) ^ 1,
        (d >> 12u16) & 7 == 7 && (d >> 5u16) & 0x1F == 31 ==> (inc_ver(d) >> 5u16) & 0x1F == 0 && (inc_ver(d)
            >> 11u16) & 1 == (d >> 11u16) & 1,
        (d >> 12u16) & 7 == 7 && (d >> 5u16) & 0x1F != 29 && (d >> 5u16) & 0x1F != 31 ==> (inc_ver(d) >> 5u16)
            & 0x1F == ((d >> 5u16) & 0x1F) + 1 && (inc_ver(d) >> 11u16) & 1 == (d >> 11u16) & 1,
{
    if (d >> 12u16) & 7 < 7 {
        assert(((d + 0x1000) as u16) & 0x041F == d & 0x041F && (((d + 0x1000) as u16) >> 12u16) & 7 == ((d >> 12u16)
            & 7) + 1 && (((d + 0x1000) as u16) >> 5u16) & 0x1F == (d >> 5u16) & 0x1F) by (bit_vector)
            requires (d >> 12u16) & 7 < 7;
    } else {
        let d1 = d & !0x7000u16;
        assert(d1 & 0x041F == d & 0x041F && (d1 >> 5u16) & 0x1F == (d >> 5u16) & 0x1F && (d1 >> 11u16) & 1 == (d
            >> 11u16) & 1 && (d1 >> 12u16) & 7 == 0) by (bit_vector)
            requires d1 == d & !0x7000u16;
        let cy = (d >> 5u16) & 0x1F;
        if cy == 29 {
            assert(((d1 & !0x03E0u16) ^ 0x0800) & 0x041F == d1 & 0x041F && (((d1 & !0x03E0u16) ^ 0x0800) >> 12u16) & 7
                == (d1 >> 12u16) & 7 && (((d1 & !0x03E0u16) ^ 0x0800) >> 5u16) & 0x1F == 0 && (((d1 & !0x03E0u16)
                ^ 0x0800) >> 11u16) & 1 == ((d1 >> 11u16) & 1) ^ 1) by (bit_vector);
        } else if cy == 31 {
            assert((d1 & !0x03E0u16) & 0x041F == d1 & 0x041F && ((d1 & !0x03E0u16) >> 12u16) & 7 == (d1 >> 12u16) & 7
                && ((d1 & !0x03E0u16) >> 5u16) & 0x1F == 0 && ((d1 & !0x03E0u16) >> 11u16) & 1 == (d1 >> 11u16) & 1)
                by (bit_vector);
        } else {
            assert(((d1 + 0x20) as u16) & 0x041F == d1 & 0x041F && (((d1 + 0x20) as u16) >> 12u16) & 7 == (d1
                >> 12u16) & 7 && (((d1 + 0x20) as u16) >> 5u16) & 0x1F == ((d1 >> 5u16) & 0x1F) + 1 && (((d1 + 0x20)
                as u16) >> 11u16) & 1 == (d1 >> 11u16) & 1) by (bit_vector)
                requires (d1 >> 5u16) & 0x1F != 29 && (d1 >> 5u16) & 0x1F != 31 && (d1 >> 12u16) & 7 == 0;
        }
    }
}

/// Palette entries 0x10, 0x14, 0x18 and 0x1C are the entries 0x00, 0x04, 0x08
/// and 0x0C: a PPUDATA write through either address is read back through the
/// other.
pub proof fn law_palette_alias<B: PpuBus>(p: PpuView, bus: B::V, k: u16, high: bool, data: u8)
    requires
        k < 4,
        p.palette_ram.len() == 32,
        p.v == (if high { 0x3F10 + 4 * k } else { 0x3F00 + 4 * k }),
    ensures
        palette_index((0x3F10 + 4 * k) as u16) == palette_index((0x3F00 + 4 * k) as u16),
        ({
            let (p1, b1) = p.spec_cpu_write::<B>(bus, 0x2007, data);
            let p2 = PpuView { v: (if high { 0x3F00 + 4 * k } else { 0x3F10 + 4 * k }) as u16, ..p1 };
            p2.spec_cpu_read::<B>(b1, 0x2007).0 == data
        }),
{
    assert((0x3F10 + 4 * k) as u16 & 0x3FFF == 0x3F10 + 4 * k) by (bit_vector)
        requires k < 4;
    assert((0x3F00 + 4 * k) as u16 & 0x3FFF == 0x3F00 + 4 * k) by (bit_vector)
        requires k < 4;
}

/// Two PPUADDR writes, high byte first, load `v` (and `t`) with the 14-bit
/// address they spell and leave the write toggle clear. `t` within 15 bits is
/// part of `Ppu::wf`.
pub proof fn law_ppuaddr<B: PpuBus>(p: PpuView, bus: B::V, hi: u8, lo: u8)
    requires
        !p.w,
        p.t < 0x8000,
    ensures
        ({
            let (p1, b1) = p.spec_cpu_write::<B>(bus, 0x2006, hi);
            let (p2, b2) = p1.spec_cpu_write::<B>(b1, 0x2006, lo);
            &&& p2.v == (hi % 64) as u16 * 256 + lo as u16
            &&& p2.t == p2.v && !p2.w
        }),
{
    let t = p.t;
    assert((((t & 0x80FF) | (((hi & 0x3F) as u16) << 8u16)) & 0xFF00) | (lo as u16) == ((hi & 0x3F) as u16) * 256 + (
    lo as u16)) by (bit_vector)
        requires t < 0x8000;
    assert(hi & 0x3F == hi % 64) by (bit_vector);
}

} // verus!
