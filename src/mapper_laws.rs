//! Laws of the mapper models, stated over the cartridge they sit in.
use vstd::prelude::*;
use crate::cartridge::CartView;
use crate::mapper::{Ctrl, Mapper, Mapper1, Mapper4, NametableConf};

verus! {

/// NROM: a CPU read at 0x8000 + k is PRG-ROM byte k modulo its size.
pub proof fn law_mapper0_prg(cart: CartView, k: u16)
    requires
        cart.mapper is M0,
        cart.prg_rom.len() > 0,
        cart.prg_rom.len() <= usize::MAX,
        k < 0x8000,
    ensures
        cart.spec_cpu_read((0x8000 + k) as u16) == cart.prg_rom[(k as int) % (cart.prg_rom.len() as int)],
{
    vstd::arithmetic::div_mod::lemma_mod_bound(k as int, cart.prg_rom.len() as int);
}

/// UxROM: whatever bank a write selects, 0xC000-0xFFFF still reads the last
/// 16 KiB of PRG-ROM.
pub proof fn law_mapper2_fixed_last(cart: CartView, data: u8, addr: u16, n: nat)
    requires
        cart.mapper is M2,
        n >= 1,
        cart.prg_rom.len() == n * 0x4000,
        n * 0x4000 <= usize::MAX,
        addr >= 0xC000,
    ensures
        cart.spec_cpu_write(0x8000, data).spec_cpu_read(addr) == cart.prg_rom[cart.prg_rom.len() - 0x4000 + (addr - 0xC000)],
{
}

/// CNROM: after a write of `data`, the pattern tables read CHR bank `data`
/// modulo the number of 8 KiB banks.
pub proof fn law_mapper3_chr_bank(cart: CartView, data: u8, addr: u16, n: nat)
    requires
        cart.mapper is M3,
        n >= 1,
        cart.chr.len() == n * 0x2000,
        n * 0x2000 <= usize::MAX,
        addr <= 0x1FFF,
    ensures
        cart.spec_cpu_write(0x8000, data).spec_ppu_read(addr).0 == cart.chr[(data as int % (n as int)) * 0x2000 + addr],
{
    let c2 = cart.spec_cpu_write(0x8000, data);
    let b = data as int % n as int;
    assert((cart.chr.len() as usize) as int == n * 0x2000);
    vstd::arithmetic::div_mod::lemma_div_by_multiple(n as int, 0x2000);
    vstd::arithmetic::div_mod::lemma_mod_decreases(data as nat, n);
    assert(b * 0x2000 + addr < n * 0x2000) by (nonlinear_arith)
        requires 0 <= b < n, addr <= 0x1FFF;
    assert(0 <= b < n) by {
        vstd::arithmetic::div_mod::lemma_mod_bound(data as int, n as int);
    }
}

/// MMC1: five writes with bit 7 clear, starting from an empty shift register,
/// commit their bits 0, first write lowest, to the control register (address
/// 0x8000).
pub proof fn law_mapper1_serial(m: Mapper1, d0: u8, d1: u8, d2: u8, d3: u8, d4: u8, nt: NametableConf)
    requires
        m.shift_reg == 0 && m.write_count == 0,
        d0 < 128 && d1 < 128 && d2 < 128 && d3 < 128 && d4 < 128,
    ensures
        ({
            let (m1, n1) = m.spec_write_reg(0x8000, d0, nt);
            let (m2, n2) = m1.spec_write_reg(0x8000, d1, n1);
            let (m3, n3) = m2.spec_write_reg(0x8000, d2, n2);
            let (m4, n4) = m3.spec_write_reg(0x8000, d3, n3);
            let (m5, n5) = m4.spec_write_reg(0x8000, d4, n4);
            &&& m5.ctrl.data == d0 % 2 + 2 * (d1 % 2) + 4 * (d2 % 2) + 8 * (d3 % 2) + 16 * (d4 % 2)
            &&& m5.shift_reg == 0 && m5.write_count == 0
            &&& n5 == m5.ctrl.spec_nt_conf()
        }),
{
}

/// MMC1: a write with bit 7 set empties the shift register and forces the
/// fixed-last PRG mode (control bits 2-3 set).
pub proof fn law_mapper1_reset(m: Mapper1, addr: u16, data: u8, nt: NametableConf)
    requires
        data >= 128,
    ensures
        ({
            let (m1, n1) = m.spec_write_reg(addr, data, nt);
            &&& m1.shift_reg == 0 && m1.write_count == 0
            &&& m1.ctrl.spec_prg_bank_mode() == 3
            &&& m1.ctrl.data == m.ctrl.data | 0x0C
        }),
{
    let c = m.ctrl.data;
    assert(((c | 0x0C) / 4) % 4 == 3) by (bit_vector);
}

/// MMC3: once raised, the IRQ line stays raised through PPU accesses and every
/// register write but the one that disables IRQs (0xE000, even), which lowers it.
pub proof fn law_mmc3_irq_held(m: Mapper4, addr: u16, data: u8, nt: NametableConf)
    ensures
        m.spec_update_irq(addr, true).1,
        addr >= 0x8000 && !((addr % 0x8000) / 0x2000 == 3 && addr % 2 == 0) ==> m.spec_write_reg(addr, data, nt, true).2,
        addr >= 0x8000 && (addr % 0x8000) / 0x2000 == 3 && addr % 2 == 0 ==> !m.spec_write_reg(addr, data, nt, true).2,
{
}

/// MMC3: a rise of A12 after it was low for more than three ticks clocks the
/// counter; when that brings it to zero with IRQs enabled, the IRQ line rises.
pub proof fn law_mmc3_irq_fires(m: Mapper4, addr: u16)
    requires
        (addr / 0x1000) % 2 == 1,
        !m.a12_prev,
        m.irq_delay_counter > 3,
        !m.irq_reset,
        m.irq_enable,
        m.irq_counter == 1 || (m.irq_counter == 0 && m.irq_latch == 0),
    ensures
        m.spec_update_irq(addr, false).1,
        m.spec_update_irq(addr, false).0.irq_counter == 0,
{
}

/// MMC3: an A12 rise that follows too short a low period does not clock the
/// counter.
pub proof fn law_mmc3_filter(m: Mapper4, addr: u16, irq: bool)
    requires
        m.irq_delay_counter <= 3,
    ensures
        m.spec_update_irq(addr, irq).0.irq_counter == m.irq_counter,
        m.spec_update_irq(addr, irq).1 == irq,
{
}

} // verus!
