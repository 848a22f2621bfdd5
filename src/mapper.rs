//! The bank mappers 0 to 4: address translation for PRG and CHR, bank register
//! writes, nametable arrangement and the MMC3 scanline IRQ.
use vstd::prelude::*;

verus! {

pub const KB_1: usize = 1024;
pub const KB_2: usize = 2048;
pub const KB_4: usize = 4096;
pub const KB_8: usize = 8192;
pub const KB_16: usize = 16384;
pub const KB_32: usize = 32768;

/// How the four logical nametables share the 2 KiB of cartridge VRAM.
#[derive(Clone, Copy, PartialEq, Eq, Structural, Debug)]
pub enum NametableConf {
    Horizontal,
    Vertical,
    OneScreenLower,
    OneScreenUpper,
}

/// Mapper 0 (NROM): fixed banks.
#[derive(Clone, Copy, PartialEq, Eq, Structural, Debug)]
pub struct Mapper0 {}

/// The MMC1 control register: nametable mode (bits 0-1), PRG bank mode (bits
/// 2-3), CHR bank mode (bit 4).
#[derive(Clone, Copy, PartialEq, Eq, Structural, Debug)]
pub struct Ctrl {
    pub data: u8,
}

/// Mapper 1 (MMC1): a serial shift register feeding four 5-bit registers.
#[derive(Clone, Copy, PartialEq, Eq, Structural, Debug)]
pub struct Mapper1 {
    pub shift_reg: u8,
    pub write_count: u8,
    pub ctrl: Ctrl,
    pub chr_bank_0: u8,
    pub chr_bank_1: u8,
    pub prg_bank: u8,
}

/// Mapper 2 (UxROM): a switchable low 16 KiB PRG bank, the high one fixed last.
#[derive(Clone, Copy, PartialEq, Eq, Structural, Debug)]
pub struct Mapper2 {
    pub prg_offset: u32,
}

/// Mapper 3 (CNROM): a switchable 8 KiB CHR bank.
#[derive(Clone, Copy, PartialEq, Eq, Structural, Debug)]
pub struct Mapper3 {
    pub chr_offset: u32,
}

/// The MMC3 bank-select register: target bank (bits 0-2), PRG mode (bit 6), CHR
/// mode (bit 7).
#[derive(Clone, Copy, PartialEq, Eq, Structural, Debug)]
pub struct BankSelect {
    pub data: u8,
}

/// Mapper 4 (MMC3): 8 KiB PRG windows, 1 and 2 KiB CHR banks, scanline IRQ.
#[derive(Clone, Copy, PartialEq, Eq, Structural, Debug)]
pub struct Mapper4 {
    pub bank_select: BankSelect,
    pub chr_1kb_bank_0: u8,
    pub chr_1kb_bank_1: u8,
    pub chr_1kb_bank_2: u8,
    pub chr_1kb_bank_3: u8,
    pub chr_2kb_bank_0: u8,
    pub chr_2kb_bank_1: u8,
    pub prg_bank_0: u8,
    pub prg_bank_1: u8,
    pub irq_latch: u8,
    pub irq_counter: u8,
    pub irq_reset: bool,
    pub irq_enable: bool,
    pub a12_prev: bool,
    pub irq_delay_counter: u32,
}

/// One of the supported mappers with its state.
#[derive(Clone, Copy, PartialEq, Eq, Structural, Debug)]
pub enum Mapper {
    M0(Mapper0),
    M1(Mapper1),
    M2(Mapper2),
    M3(Mapper3),
    M4(Mapper4),
}

/// `x % m`, or 0 for an empty memory.
pub open spec fn wrap_to(x: int, m: usize) -> int {
    if m == 0 { 0 } else { x % (m as int) }
}

fn wrap_index(x: usize, m: usize) -> (r: u64)
    ensures
        r == wrap_to(x as int, m),
        m > 0 ==> r < m,
{
    if m == 0 { 0 } else { (x % m) as u64 }
}

fn wrap_index_wide(x: u128, m: usize) -> (r: u64)
    ensures
        r == wrap_to(x as int, m),
        m > 0 ==> r < m,
{
    if m == 0 { 0 } else { (x % (m as u128)) as u64 }
}

impl Mapper0 {
    pub fn init() -> (r: Mapper0)
        ensures
            r == (Mapper0 {}),
    {
        Mapper0 {}
    }
}

impl Ctrl {
    pub open spec fn spec_nt_conf(self) -> NametableConf {
        match self.data % 4 {
            0 => NametableConf::OneScreenLower,
            1 => NametableConf::OneScreenUpper,
            2 => NametableConf::Vertical,
            _ => NametableConf::Horizontal,
        }
    }

    pub open spec fn spec_prg_bank_mode(self) -> u8 {
        ((self.data / 4) % 4) as u8
    }

    pub open spec fn spec_chr_bank_mode(self) -> u8 {
        ((self.data / 16) % 2) as u8
    }

    /// The nametable arrangement that bits 0-1 select.
    pub fn nt_conf(&self) -> (r: NametableConf)
        ensures
            r == self.spec_nt_conf(),
    {
        match self.data % 4 {
            0 => NametableConf::OneScreenLower,
            1 => NametableConf::OneScreenUpper,
            2 => NametableConf::Vertical,
            _ => NametableConf::Horizontal,
        }
    }

    /// The PRG bank mode, bits 2-3.
    pub fn prg_bank_mode(&self) -> (r: u8)
        ensures
            r == self.spec_prg_bank_mode(),
    {
        (self.data / 4) % 4
    }

    /// The CHR bank mode, bit 4.
    pub fn chr_bank_mode(&self) -> (r: u8)
        ensures
            r == self.spec_chr_bank_mode(),
    {
        (self.data / 16) % 2
    }
}

impl Mapper1 {
    pub fn init() -> (r: Mapper1)
        ensures
            r.shift_reg == 0 && r.write_count == 0 && r.ctrl.data == 0x0C,
            r.chr_bank_0 == 0 && r.chr_bank_1 == 0 && r.prg_bank == 0,
    {
        Mapper1 { shift_reg: 0, write_count: 0, ctrl: Ctrl { data: 0x0C }, chr_bank_0: 0, chr_bank_1: 0, prg_bank: 0 }
    }

    /// A write to 0x8000-0xFFFF: bit 7 resets the shifter and forces the fixed-last
    /// PRG mode; otherwise bit 0 is shifted in, and the fifth write commits the five
    /// bits to the register that address bits 13-14 select.
    pub open spec fn spec_write_reg(self, addr: u16, data: u8, nt: NametableConf) -> (Mapper1, NametableConf) {
        if data >= 128 {
            (Mapper1 { shift_reg: 0, write_count: 0, ctrl: Ctrl { data: self.ctrl.data | 0x0C }, ..self }, nt)
        } else {
            let sr = (self.shift_reg / 2 + (data % 2) * 16) as u8;
            if self.write_count + 1 >= 5 {
                let m = match (addr / 0x2000) % 4 {
                    0 => Mapper1 { ctrl: Ctrl { data: sr }, ..self },
                    1 => Mapper1 { chr_bank_0: sr, ..self },
                    2 => Mapper1 { chr_bank_1: sr, ..self },
                    _ => Mapper1 { prg_bank: sr, ..self },
                };
                (Mapper1 { shift_reg: 0, write_count: 0, ..m }, m.ctrl.spec_nt_conf())
            } else {
                (Mapper1 { shift_reg: sr, write_count: (self.write_count + 1) as u8, ..self }, nt)
            }
        }
    }

    pub open spec fn spec_map_prg(self, addr: u16, prg_size: usize) -> int {
        let bank = self.prg_bank as int;
        let offset = addr as int % 0x8000;
        let last: int = if prg_size >= 0x4000 { prg_size - 0x4000 } else { 0 };
        wrap_to(
            match self.ctrl.spec_prg_bank_mode() {
                0 | 1 => (bank / 2) * 0x8000 + offset,
                2 => if offset < 0x4000 { offset } else { bank * 0x4000 + offset % 0x4000 },
                _ => if offset < 0x4000 { bank * 0x4000 + offset } else { last + offset % 0x4000 },
            },
            prg_size,
        )
    }

    pub open spec fn spec_map_chr(self, addr: u16, chr_size: usize) -> int {
        let offset = addr as int % 0x2000;
        wrap_to(
            if self.ctrl.spec_chr_bank_mode() == 0 {
                (self.chr_bank_0 / 2) * 0x2000 + offset
            } else if offset < 0x1000 {
                self.chr_bank_0 * 0x1000 + offset
            } else {
                self.chr_bank_1 * 0x1000 + offset % 0x1000
            },
            chr_size,
        )
    }

    fn write_reg(&mut self, addr: u16, data: u8, nt: &mut NametableConf)
        ensures
            (*final(self), *final(nt)) == old(self).spec_write_reg(addr, data, *old(nt)),
    {
        if data >= 128 {
            self.shift_reg = 0;
            self.write_count = 0;
            self.ctrl = Ctrl { data: self.ctrl.data | 0x0C };
        } else {
            let sr: u8 = self.shift_reg / 2 + (data % 2) * 16;
            if self.write_count >= 4 {
                match (addr / 0x2000) % 4 {
                    0 => self.ctrl = Ctrl { data: sr },
                    1 => self.chr_bank_0 = sr,
                    2 => self.chr_bank_1 = sr,
                    _ => self.prg_bank = sr,
                }
                *nt = self.ctrl.nt_conf();
                self.shift_reg = 0;
                self.write_count = 0;
            } else {
                self.shift_reg = sr;
                self.write_count = self.write_count + 1;
            }
        }
    }

    fn map_prg(&self, addr: u16, prg_size: usize) -> (r: u64)
        ensures
            r == self.spec_map_prg(addr, prg_size),
            prg_size > 0 ==> r < prg_size,
    {
        let bank = self.prg_bank as usize;
        let offset = addr as usize % KB_32;
        let last: usize = if prg_size >= KB_16 { prg_size - KB_16 } else { 0 };
        let x: usize = match self.ctrl.prg_bank_mode() {
            0 | 1 => (bank / 2) * KB_32 + offset,
            2 => if offset < KB_16 { offset } else { bank * KB_16 + offset % KB_16 },
            _ => if offset < KB_16 { bank * KB_16 + offset } else { last + offset % KB_16 },
        };
        wrap_index(x, prg_size)
    }

    fn map_chr(&self, addr: u16, chr_size: usize) -> (r: u64)
        ensures
            r == self.spec_map_chr(addr, chr_size),
            chr_size > 0 ==> r < chr_size,
    {
        let offset = addr as usize % KB_8;
        let x: usize = if self.ctrl.chr_bank_mode() == 0 {
            (self.chr_bank_0 as usize / 2) * KB_8 + offset
        } else if offset < KB_4 {
            self.chr_bank_0 as usize * KB_4 + offset
        } else {
            self.chr_bank_1 as usize * KB_4 + offset % KB_4
        };
        wrap_index(x, chr_size)
    }
}

impl Mapper2 {
    pub fn init() -> (r: Mapper2)
        ensures
            r.prg_offset == 0,
    {
        Mapper2 { prg_offset: 0 }
    }

    /// A write selects the 16 KiB bank at 0x8000, modulo the number of banks.
    pub open spec fn spec_write_reg(self, data: u8, prg_size: usize) -> Mapper2 {
        Mapper2 {
            prg_offset: if prg_size >= 0x4000 { ((data as int % (prg_size / 0x4000) as int) * 0x4000) as u32 } else { 0 },
        }
    }

    pub open spec fn spec_map_prg(self, addr: u16, prg_size: usize) -> int {
        let rel = addr as int - 0x8000;
        if rel < 0x4000 {
            rel + self.prg_offset
        } else {
            rel % 0x4000 + (if prg_size >= 0x4000 { prg_size - 0x4000 } else { 0 })
        }
    }

    fn write_reg(&mut self, data: u8, prg_size: usize)
        ensures
            *final(self) == old(self).spec_write_reg(data, prg_size),
    {
        if prg_size >= KB_16 {
            let banks = prg_size / KB_16;
            let b = data as usize % banks;
            proof {
                vstd::arithmetic::div_mod::lemma_mod_decreases(data as nat, banks as nat);
            }
            self.prg_offset = (b * KB_16) as u32;
        } else {
            self.prg_offset = 0;
        }
    }

    fn map_prg(&self, addr: u16, prg_size: usize) -> (r: u64)
        requires
            addr >= 0x8000,
        ensures
            r == self.spec_map_prg(addr, prg_size),
    {
        let rel = (addr - 0x8000) as usize;
        if rel < KB_16 {
            rel as u64 + self.prg_offset as u64
        } else {
            (rel % KB_16) as u64 + if prg_size >= KB_16 { (prg_size - KB_16) as u64 } else { 0 }
        }
    }
}

impl Mapper3 {
    pub fn init() -> (r: Mapper3)
        ensures
            r.chr_offset == 0,
    {
        Mapper3 { chr_offset: 0 }
    }

    /// A write selects the 8 KiB CHR bank, modulo the number of banks.
    pub open spec fn spec_write_reg(self, data: u8, chr_size: usize) -> Mapper3 {
        Mapper3 {
            chr_offset: if chr_size >= 0x2000 { ((data as int % (chr_size / 0x2000) as int) * 0x2000) as u32 } else { 0 },
        }
    }

    pub open spec fn spec_map_chr(self, addr: u16) -> int {
        addr + self.chr_offset
    }

    fn write_reg(&mut self, data: u8, chr_size: usize)
        ensures
            *final(self) == old(self).spec_write_reg(data, chr_size),
    {
        if chr_size >= KB_8 {
            let banks = chr_size / KB_8;
            let b = data as usize % banks;
            proof {
                vstd::arithmetic::div_mod::lemma_mod_decreases(data as nat, banks as nat);
            }
            self.chr_offset = (b * KB_8) as u32;
        } else {
            self.chr_offset = 0;
        }
    }

    fn map_chr(&self, addr: u16) -> (r: u64)
        ensures
            r == self.spec_map_chr(addr),
    {
        addr as u64 + self.chr_offset as u64
    }
}

impl BankSelect {
    pub open spec fn spec_next_bank(self) -> u8 {
        self.data % 8
    }

    pub open spec fn spec_prg_mode(self) -> u8 {
        ((self.data / 64) % 2) as u8
    }

    pub open spec fn spec_chr_mode(self) -> u8 {
        self.data / 128
    }
}

impl Mapper4 {
    pub fn init() -> (r: Mapper4)
        ensures
            r.bank_select.data == 0 && r.irq_latch == 0 && r.irq_counter == 0,
            !r.irq_reset && !r.irq_enable && !r.a12_prev && r.irq_delay_counter == 0,
            r.prg_bank_0 == 0 && r.prg_bank_1 == 0,
            r.chr_1kb_bank_0 == 0 && r.chr_1kb_bank_1 == 0 && r.chr_1kb_bank_2 == 0 && r.chr_1kb_bank_3 == 0,
            r.chr_2kb_bank_0 == 0 && r.chr_2kb_bank_1 == 0,
    {
        Mapper4 {
            bank_select: BankSelect { data: 0 },
            chr_1kb_bank_0: 0,
            chr_1kb_bank_1: 0,
            chr_1kb_bank_2: 0,
            chr_1kb_bank_3: 0,
            chr_2kb_bank_0: 0,
            chr_2kb_bank_1: 0,
            prg_bank_0: 0,
            prg_bank_1: 0,
            irq_latch: 0,
            irq_counter: 0,
            irq_reset: false,
            irq_enable: false,
            a12_prev: false,
            irq_delay_counter: 0,
        }
    }

    /// A write to the register that (address bits 13-14, address bit 0) select.
    pub open spec fn spec_write_reg(self, addr: u16, data: u8, nt: NametableConf, irq: bool) -> (Mapper4, NametableConf, bool) {
        let reg = (addr % 0x8000) / 0x2000;
        let odd = addr % 2 == 1;
        if reg == 0 && !odd {
            (Mapper4 { bank_select: BankSelect { data: data }, ..self }, nt, irq)
        } else if reg == 0 {
            (match self.bank_select.spec_next_bank() {
                0 => Mapper4 { chr_2kb_bank_0: data, ..self },
                1 => Mapper4 { chr_2kb_bank_1: data, ..self },
                2 => Mapper4 { chr_1kb_bank_0: data, ..self },
                3 => Mapper4 { chr_1kb_bank_1: data, ..self },
                4 => Mapper4 { chr_1kb_bank_2: data, ..self },
                5 => Mapper4 { chr_1kb_bank_3: data, ..self },
                6 => Mapper4 { prg_bank_0: data, ..self },
                _ => Mapper4 { prg_bank_1: data, ..self },
            }, nt, irq)
        } else if reg == 1 && !odd {
            (self, if data % 2 == 1 { NametableConf::Horizontal } else { NametableConf::Vertical }, irq)
        } else if reg == 1 {
            (self, nt, irq)
        } else if reg == 2 && !odd {
            (Mapper4 { irq_latch: data, ..self }, nt, irq)
        } else if reg == 2 {
            (Mapper4 { irq_reset: true, ..self }, nt, irq)
        } else if !odd {
            (Mapper4 { irq_enable: false, ..self }, nt, false)
        } else {
            (Mapper4 { irq_enable: true, ..self }, nt, irq)
        }
    }

    pub open spec fn spec_map_prg(self, addr: u16, prg_size: usize) -> int {
        let last: int = if prg_size >= 0x4000 { prg_size / 0x2000 - 1 } else { 1 };
        let second_last: int = last - 1;
        let mode0 = self.bank_select.spec_prg_mode() == 0;
        let bank: int = match (addr % 0x8000) / 0x2000 {
            0 => if mode0 { self.prg_bank_0 as int } else { second_last },
            1 => self.prg_bank_1 as int,
            2 => if mode0 { second_last } else { self.prg_bank_0 as int },
            _ => last,
        };
        wrap_to(bank * 0x2000 + (addr as int) % 0x2000, prg_size)
    }

    /// The IRQ counter clocked by PPU address line A12: a rise after A12 was low
    /// for more than three ticks reloads the counter if a reload was requested,
    /// else decrements it (reloading at zero) and raises IRQ when it reaches zero
    /// with IRQs enabled.
    pub open spec fn spec_update_irq(self, addr: u16, irq: bool) -> (Mapper4, bool) {
        let a12 = (addr / 0x1000) % 2 == 1;
        if !a12 && self.a12_prev {
            (Mapper4 { irq_delay_counter: 0, a12_prev: a12, ..self }, irq)
        } else if a12 && !self.a12_prev && self.irq_delay_counter > 3 {
            if self.irq_reset {
                (Mapper4 { irq_reset: false, irq_counter: self.irq_latch, a12_prev: a12, ..self }, irq)
            } else {
                let c: u8 = if self.irq_counter == 0 { self.irq_latch } else { (self.irq_counter - 1) as u8 };
                (Mapper4 { irq_counter: c, a12_prev: a12, ..self }, irq || (c == 0 && self.irq_enable))
            }
        } else {
            (Mapper4 { a12_prev: a12, ..self }, irq)
        }
    }

    pub open spec fn spec_chr_index(self, addr: u16, chr_size: usize) -> int {
        let half = addr / 0x1000;
        let offset = addr % 0x1000;
        let two_kb = (half == 0) == (self.bank_select.spec_chr_mode() == 0);
        let (base, size): (int, int) = if two_kb {
            if offset / 0x800 == 0 {
                ((self.chr_2kb_bank_0 / 2) as int, 0x800)
            } else {
                ((self.chr_2kb_bank_1 / 2) as int, 0x800)
            }
        } else {
            match offset / 0x400 {
                0 => (self.chr_1kb_bank_0 as int, 0x400),
                1 => (self.chr_1kb_bank_1 as int, 0x400),
                2 => (self.chr_1kb_bank_2 as int, 0x400),
                _ => (self.chr_1kb_bank_3 as int, 0x400),
            }
        };
        wrap_to(base * size + (addr as int) % size, chr_size)
    }

    fn write_reg(&mut self, addr: u16, data: u8, nt: &mut NametableConf, irq: &mut bool)
        ensures
            (*final(self), *final(nt), *final(irq)) == old(self).spec_write_reg(addr, data, *old(nt), *old(irq)),
    {
        let reg = (addr % 0x8000) / 0x2000;
        let odd = addr % 2 == 1;
        if reg == 0 && !odd {
            self.bank_select = BankSelect { data };
        } else if reg == 0 {
            match self.bank_select.data % 8 {
                0 => self.chr_2kb_bank_0 = data,
                1 => self.chr_2kb_bank_1 = data,
                2 => self.chr_1kb_bank_0 = data,
                3 => self.chr_1kb_bank_1 = data,
                4 => self.chr_1kb_bank_2 = data,
                5 => self.chr_1kb_bank_3 = data,
                6 => self.prg_bank_0 = data,
                _ => self.prg_bank_1 = data,
            }
        } else if reg == 1 && !odd {
            *nt = if data % 2 == 1 { NametableConf::Horizontal } else { NametableConf::Vertical };
        } else if reg == 1 {
        } else if reg == 2 && !odd {
            self.irq_latch = data;
        } else if reg == 2 {
            self.irq_reset = true;
        } else if !odd {
            self.irq_enable = false;
            *irq = false;
        } else {
            self.irq_enable = true;
        }
    }

    fn map_prg(&self, addr: u16, prg_size: usize) -> (r: u64)
        ensures
            r == self.spec_map_prg(addr, prg_size),
            prg_size > 0 ==> r < prg_size,
    {
        let last: usize = if prg_size >= KB_16 { prg_size / KB_8 - 1 } else { 1 };
        let second_last: usize = last - 1;
        let mode0 = (self.bank_select.data / 64) % 2 == 0;
        let bank: usize = match (addr % 0x8000) / 0x2000 {
            0 => if mode0 { self.prg_bank_0 as usize } else { second_last },
            1 => self.prg_bank_1 as usize,
            2 => if mode0 { second_last } else { self.prg_bank_0 as usize },
            _ => last,
        };
        wrap_index_wide(bank as u128 * 0x2000 + (addr as u128) % 0x2000, prg_size)
    }

    fn update_irq(&mut self, addr: u16, irq: &mut bool)
        ensures
            (*final(self), *final(irq)) == old(self).spec_update_irq(addr, *old(irq)),
    {
        let a12 = (addr / 0x1000) % 2 == 1;
        if !a12 && self.a12_prev {
            self.irq_delay_counter = 0;
        } else if a12 && !self.a12_prev && self.irq_delay_counter > 3 {
            if self.irq_reset {
                self.irq_reset = false;
                self.irq_counter = self.irq_latch;
            } else {
                if self.irq_counter == 0 {
                    self.irq_counter = self.irq_latch;
                } else {
                    self.irq_counter = self.irq_counter - 1;
                }
                if self.irq_counter == 0 && self.irq_enable {
                    *irq = true;
                }
            }
        }
        self.a12_prev = a12;
    }

    fn chr_index(&self, addr: u16, chr_size: usize) -> (r: u64)
        ensures
            r == self.spec_chr_index(addr, chr_size),
            chr_size > 0 ==> r < chr_size,
    {
        let half = addr / 0x1000;
        let offset = addr % 0x1000;
        let two_kb = (half == 0) == (self.bank_select.data / 128 == 0);
        let (base, size): (usize, usize) = if two_kb {
            if offset / 0x800 == 0 {
                ((self.chr_2kb_bank_0 / 2) as usize, KB_2)
            } else {
                ((self.chr_2kb_bank_1 / 2) as usize, KB_2)
            }
        } else {
            match offset / 0x400 {
                0 => (self.chr_1kb_bank_0 as usize, KB_1),
                1 => (self.chr_1kb_bank_1 as usize, KB_1),
                2 => (self.chr_1kb_bank_2 as usize, KB_1),
                _ => (self.chr_1kb_bank_3 as usize, KB_1),
            }
        };
        wrap_index(base * size + (addr as usize) % size, chr_size)
    }

    fn tick(&mut self)
        ensures
            Mapper::M4(*final(self)) == Mapper::M4(*old(self)).spec_tick(),
    {
        if self.irq_delay_counter < u32::MAX {
            self.irq_delay_counter = self.irq_delay_counter + 1;
        }
    }
}

impl Mapper {
    /// The mapper that a cartridge image's mapper number names; `None` for one
    /// that is not supported.
    pub open spec fn spec_from_id(id: u8) -> Option<Mapper> {
        match id {
            0 => Some(Mapper::M0(Mapper0 {})),
            1 => Some(Mapper::M1(Mapper1 { shift_reg: 0, write_count: 0, ctrl: Ctrl { data: 0x0C }, chr_bank_0: 0, chr_bank_1: 0, prg_bank: 0 })),
            2 => Some(Mapper::M2(Mapper2 { prg_offset: 0 })),
            3 => Some(Mapper::M3(Mapper3 { chr_offset: 0 })),
            4 => Some(Mapper::M4(Mapper4 {
                bank_select: BankSelect { data: 0 },
                chr_1kb_bank_0: 0,
                chr_1kb_bank_1: 0,
                chr_1kb_bank_2: 0,
                chr_1kb_bank_3: 0,
                chr_2kb_bank_0: 0,
                chr_2kb_bank_1: 0,
                prg_bank_0: 0,
                prg_bank_1: 0,
                irq_latch: 0,
                irq_counter: 0,
                irq_reset: false,
                irq_enable: false,
                a12_prev: false,
                irq_delay_counter: 0,
            })),
            _ => None,
        }
    }

    pub fn from_id(id: u8) -> (r: Option<Mapper>)
        ensures
            r == Mapper::spec_from_id(id),
    {
        match id {
            0 => Some(Mapper::M0(Mapper0::init())),
            1 => Some(Mapper::M1(Mapper1::init())),
            2 => Some(Mapper::M2(Mapper2::init())),
            3 => Some(Mapper::M3(Mapper3::init())),
            4 => Some(Mapper::M4(Mapper4::init())),
            _ => None,
        }
    }

    /// A CPU write to 0x8000-0xFFFF: the mapper, the nametable arrangement and
    /// the IRQ line after it.
    pub open spec fn spec_write_reg(self, addr: u16, data: u8, prg_size: usize, chr_size: usize, nt: NametableConf, irq: bool) -> (Mapper, NametableConf, bool) {
        match self {
            Mapper::M0(m) => (self, nt, irq),
            Mapper::M1(m) => {
                let (m1, nt1) = m.spec_write_reg(addr, data, nt);
                (Mapper::M1(m1), nt1, irq)
            },
            Mapper::M2(m) => (Mapper::M2(m.spec_write_reg(data, prg_size)), nt, irq),
            Mapper::M3(m) => (Mapper::M3(m.spec_write_reg(data, chr_size)), nt, irq),
            Mapper::M4(m) => {
                let (m1, nt1, irq1) = m.spec_write_reg(addr, data, nt, irq);
                (Mapper::M4(m1), nt1, irq1)
            },
        }
    }

    /// The PRG-ROM index of a CPU address in 0x8000-0xFFFF.
    pub open spec fn spec_map_prg(self, addr: u16, prg_size: usize) -> int {
        match self {
            Mapper::M1(m) => m.spec_map_prg(addr, prg_size),
            Mapper::M2(m) => m.spec_map_prg(addr, prg_size),
            Mapper::M4(m) => m.spec_map_prg(addr, prg_size),
            _ => wrap_to(addr - 0x8000, prg_size),
        }
    }

    /// The CHR index of a PPU address in 0x0000-0x1FFF, with the mapper and IRQ
    /// line after the access (MMC3 watches A12).
    pub open spec fn spec_map_chr(self, addr: u16, chr_size: usize, irq: bool) -> (Mapper, int, bool) {
        match self {
            Mapper::M1(m) => (self, m.spec_map_chr(addr, chr_size), irq),
            Mapper::M3(m) => (self, m.spec_map_chr(addr), irq),
            Mapper::M4(m) => {
                let (m1, irq1) = m.spec_update_irq(addr, irq);
                (Mapper::M4(m1), m1.spec_chr_index(addr, chr_size), irq1)
            },
            _ => (self, addr as int, irq),
        }
    }

    pub open spec fn spec_tick(self) -> Mapper {
        match self {
            Mapper::M4(m) => Mapper::M4(Mapper4 {
                irq_delay_counter: if m.irq_delay_counter < u32::MAX { (m.irq_delay_counter + 1) as u32 } else { u32::MAX },
                ..m
            }),
            _ => self,
        }
    }

    pub fn write_reg(&mut self, addr: u16, data: u8, prg_size: usize, chr_size: usize, nt: &mut NametableConf, irq: &mut bool)
        ensures
            (*final(self), *final(nt), *final(irq)) == old(self).spec_write_reg(addr, data, prg_size, chr_size, *old(nt), *old(irq)),
    {
        match self {
            Mapper::M0(_) => {},
            Mapper::M1(m) => m.write_reg(addr, data, nt),
            Mapper::M2(m) => m.write_reg(data, prg_size),
            Mapper::M3(m) => m.write_reg(data, chr_size),
            Mapper::M4(m) => m.write_reg(addr, data, nt, irq),
        }
    }

    pub fn map_prg(&self, addr: u16, prg_size: usize) -> (r: u64)
        requires
            addr >= 0x8000,
        ensures
            r == self.spec_map_prg(addr, prg_size),
    {
        match self {
            Mapper::M1(m) => m.map_prg(addr, prg_size),
            Mapper::M2(m) => m.map_prg(addr, prg_size),
            Mapper::M4(m) => m.map_prg(addr, prg_size),
            _ => wrap_index((addr - 0x8000) as usize, prg_size),
        }
    }

    pub fn map_chr(&mut self, addr: u16, chr_size: usize, irq: &mut bool) -> (r: u64)
        ensures
            (*final(self), r as int, *final(irq)) == old(self).spec_map_chr(addr, chr_size, *old(irq)),
    {
        match self {
            Mapper::M1(m) => m.map_chr(addr, chr_size),
            Mapper::M3(m) => m.map_chr(addr),
            Mapper::M4(m) => {
                m.update_irq(addr, irq);
                m.chr_index(addr, chr_size)
            },
            _ => addr as u64,
        }
    }

    pub fn tick(&mut self)
        ensures
            *final(self) == old(self).spec_tick(),
    {
        match self {
            Mapper::M4(m) => m.tick(),
            _ => {},
        }
    }
}

} // verus!
