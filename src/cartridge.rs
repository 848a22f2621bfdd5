//! The cartridge: PRG-ROM, PRG-RAM, CHR, 2 KiB of nametable VRAM, and the mapper
//! that translates CPU and PPU addresses into them.
use vstd::prelude::*;
use crate::mapper::{Mapper, NametableConf};
use crate::ppu::PpuBus;
use crate::rom::Rom;

verus! {

pub const PRG_RAM_START: u16 = 0x6000;
pub const PRG_RAM_END: u16 = 0x7FFF;
pub const PRG_ROM_START: u16 = 0x8000;
pub const PATTERN_END: u16 = 0x1FFF;
pub const NAMETABLE_0_START: u16 = 0x2000;
pub const NAMETABLE_END: u16 = 0x3EFF;
pub const VRAM_SIZE: usize = 0x800;

/// A cartridge plugged into the machine.
pub struct Cartridge {
    prg_rom: Vec<u8>,
    prg_ram: Vec<u8>,
    chr: Vec<u8>,
    chr_ram: bool,
    nt_conf: NametableConf,
    vram: Vec<u8>,
    mapper: Mapper,
    irq: bool,
}

/// The contents and state of a cartridge.
pub struct CartView {
    pub prg_rom: Seq<u8>,
    pub prg_ram: Seq<u8>,
    pub chr: Seq<u8>,
    pub chr_ram: bool,
    pub nt_conf: NametableConf,
    pub vram: Seq<u8>,
    pub mapper: Mapper,
    pub irq: bool,
}

/// The byte at `i`, or 0 past the end.
pub open spec fn byte_at(s: Seq<u8>, i: int) -> u8 {
    if 0 <= i < s.len() { s[i] } else { 0 }
}

/// `s` with the byte at `i` replaced; unchanged past the end.
pub open spec fn put_byte(s: Seq<u8>, i: int, b: u8) -> Seq<u8> {
    if 0 <= i < s.len() { s.update(i, b) } else { s }
}

/// Reads the byte at `i`, or 0 past the end.
pub fn get_byte(s: &Vec<u8>, i: usize) -> (r: u8)
    ensures
        r == byte_at(s@, i as int),
{
    if i < s.len() { s[i] } else { 0 }
}

/// Replaces the byte at `i`; nothing past the end.
pub fn set_byte(s: &mut Vec<u8>, i: usize, b: u8)
    ensures
        final(s)@ == put_byte(old(s)@, i as int, b),
{
    if i < s.len() {
        s.set(i, b);
    }
}

/// The VRAM index of a nametable address (0x2000-0x3EFF, 0x3000 up mirroring
/// 0x2000 up) under an arrangement.
pub open spec fn vram_index(addr: u16, nt: NametableConf) -> int {
    let a = (addr - 0x2000) % 0x1000;
    match nt {
        NametableConf::Vertical => a % 0x800,
        NametableConf::Horizontal => a % 0x400 + (a / 0x800) * 0x400,
        NametableConf::OneScreenLower => a % 0x400,
        NametableConf::OneScreenUpper => a % 0x400 + 0x400,
    }
}

/// Computes the VRAM index of a nametable address.
pub fn vram_idx(addr: u16, nt: NametableConf) -> (r: usize)
    requires
        0x2000 <= addr,
    ensures
        r == vram_index(addr, nt),
        r < VRAM_SIZE,
{
    let a = ((addr - 0x2000) % 0x1000) as usize;
    match nt {
        NametableConf::Vertical => a % 0x800,
        NametableConf::Horizontal => a % 0x400 + (a / 0x800) * 0x400,
        NametableConf::OneScreenLower => a % 0x400,
        NametableConf::OneScreenUpper => a % 0x400 + 0x400,
    }
}

impl CartView {
    pub open spec fn spec_cpu_read(self, addr: u16) -> u8 {
        if PRG_RAM_START <= addr <= PRG_RAM_END {
            if self.prg_ram.len() == 0 { 0 } else { self.prg_ram[(addr - PRG_RAM_START) % (self.prg_ram.len() as int)] }
        } else if addr >= PRG_ROM_START {
            byte_at(self.prg_rom, self.mapper.spec_map_prg(addr, self.prg_rom.len() as usize))
        } else {
            0
        }
    }

    pub open spec fn spec_cpu_write(self, addr: u16, data: u8) -> CartView {
        if PRG_RAM_START <= addr <= PRG_RAM_END {
            if self.prg_ram.len() == 0 {
                self
            } else {
                CartView {
                    prg_ram: self.prg_ram.update((addr - PRG_RAM_START) % (self.prg_ram.len() as int), data),
                    ..self
                }
            }
        } else if addr >= PRG_ROM_START {
            let (m, nt, irq) = self.mapper.spec_write_reg(
                addr,
                data,
                self.prg_rom.len() as usize,
                self.chr.len() as usize,
                self.nt_conf,
                self.irq,
            );
            CartView { mapper: m, nt_conf: nt, irq: irq, ..self }
        } else {
            self
        }
    }

    pub open spec fn spec_ppu_read(self, addr: u16) -> (u8, CartView) {
        if addr <= PATTERN_END {
            let (m, i, irq) = self.mapper.spec_map_chr(addr, self.chr.len() as usize, self.irq);
            (byte_at(self.chr, i as int), CartView { mapper: m, irq: irq, ..self })
        } else if addr <= NAMETABLE_END {
            (byte_at(self.vram, vram_index(addr, self.nt_conf)), self)
        } else {
            (0, self)
        }
    }

    pub open spec fn spec_ppu_write(self, addr: u16, data: u8) -> CartView {
        if addr <= PATTERN_END {
            if self.chr_ram {
                let (m, i, irq) = self.mapper.spec_map_chr(addr, self.chr.len() as usize, self.irq);
                CartView { chr: put_byte(self.chr, i as int, data), mapper: m, irq: irq, ..self }
            } else {
                self
            }
        } else if addr <= NAMETABLE_END {
            CartView { vram: put_byte(self.vram, vram_index(addr, self.nt_conf), data), ..self }
        } else {
            self
        }
    }
}

impl View for Cartridge {
    type V = CartView;

    closed spec fn view(&self) -> CartView {
        CartView {
            prg_rom: self.prg_rom@,
            prg_ram: self.prg_ram@,
            chr: self.chr@,
            chr_ram: self.chr_ram,
            nt_conf: self.nt_conf,
            vram: self.vram@,
            mapper: self.mapper,
            irq: self.irq,
        }
    }
}

fn zeros(n: usize) -> (r: Vec<u8>)
    ensures
        r@ == Seq::new(n as nat, |i: int| 0u8),
{
    let mut v: Vec<u8> = Vec::new();
    let mut i: usize = 0;
    while i < n
        invariant
            i <= n,
            v@ == Seq::new(i as nat, |k: int| 0u8),
        decreases n - i,
    {
        v.push(0);
        i = i + 1;
        assert(v@ =~= Seq::new(i as nat, |k: int| 0u8));
    }
    v
}

fn copy_bytes(src: &Vec<u8>) -> (r: Vec<u8>)
    ensures
        r@ == src@,
{
    let mut v: Vec<u8> = Vec::new();
    let mut i: usize = 0;
    while i < src.len()
        invariant
            i <= src.len(),
            v@ == src@.subrange(0, i as int),
        decreases src.len() - i,
    {
        v.push(src[i]);
        i = i + 1;
        assert(v@ =~= src@.subrange(0, i as int));
    }
    assert(v@ =~= src@);
    v
}

impl Cartridge {
    /// The cartridge that a parsed image describes: PRG-ROM copied, PRG-RAM of the
    /// stated size, CHR-RAM of the stated size or else the CHR-ROM, VRAM zeroed,
    /// the stated mirroring, the stated mapper in its power-on state.
    pub fn init(rom: &Rom) -> (r: Cartridge)
        requires
            rom.wf(),
        ensures
            r@.prg_rom == rom.prg_rom@,
            r@.prg_ram == Seq::new(rom.prg_ram_size as nat, |i: int| 0u8),
            r@.chr == (if rom.chr_ram_size == 0 {
                rom.chr_rom@
            } else {
                Seq::new(rom.chr_ram_size as nat, |i: int| 0u8)
            }),
            r@.chr_ram == (rom.chr_ram_size > 0),
            r@.nt_conf == (if rom.vert_mirrored { NametableConf::Vertical } else { NametableConf::Horizontal }),
            r@.vram == Seq::new(VRAM_SIZE as nat, |i: int| 0u8),
            Mapper::spec_from_id(rom.mapper) == Some(r@.mapper),
            !r@.irq,
    {
        let mapper = match Mapper::from_id(rom.mapper) {
            Some(m) => m,
            None => Mapper::M0(crate::mapper::Mapper0::init()),
        };
        Cartridge {
            prg_rom: copy_bytes(&rom.prg_rom),
            prg_ram: zeros(rom.prg_ram_size as usize),
            chr: if rom.chr_ram_size == 0 { copy_bytes(&rom.chr_rom) } else { zeros(rom.chr_ram_size as usize) },
            chr_ram: rom.chr_ram_size > 0,
            nt_conf: if rom.vert_mirrored { NametableConf::Vertical } else { NametableConf::Horizontal },
            vram: zeros(VRAM_SIZE),
            mapper,
            irq: false,
        }
    }

    /// A CPU read of cartridge space: PRG-RAM at 0x6000-0x7FFF, PRG-ROM through the
    /// mapper at 0x8000-0xFFFF, 0 elsewhere.
    pub fn cpu_read(&self, addr: u16) -> (r: u8)
        ensures
            r == self@.spec_cpu_read(addr),
    {
        if PRG_RAM_START <= addr && addr <= PRG_RAM_END {
            if self.prg_ram.len() == 0 {
                0
            } else {
                self.prg_ram[(addr - PRG_RAM_START) as usize % self.prg_ram.len()]
            }
        } else if addr >= PRG_ROM_START {
            let i = self.mapper.map_prg(addr, self.prg_rom.len());
            if i < self.prg_rom.len() as u64 { self.prg_rom[i as usize] } else { 0 }
        } else {
            0
        }
    }

    /// A CPU write of cartridge space: PRG-RAM at 0x6000-0x7FFF, the mapper's
    /// registers at 0x8000-0xFFFF.
    pub fn cpu_write(&mut self, addr: u16, data: u8)
        ensures
            final(self)@ == old(self)@.spec_cpu_write(addr, data),
    {
        let prg_ram_size = self.prg_ram.len();
        if PRG_RAM_START <= addr && addr <= PRG_RAM_END {
            if prg_ram_size != 0 {
                self.prg_ram.set((addr - PRG_RAM_START) as usize % prg_ram_size, data);
            }
        } else if addr >= PRG_ROM_START {
            let prg_size = self.prg_rom.len();
            let chr_size = self.chr.len();
            self.mapper.write_reg(addr, data, prg_size, chr_size, &mut self.nt_conf, &mut self.irq);
        }
    }

    /// The cartridge's IRQ line.
    pub fn irq(&self) -> (r: bool)
        ensures
            r == self@.irq,
    {
        self.irq
    }

    /// One PPU cycle of the mapper (MMC3 counts its A12 filter delay).
    pub fn tick(&mut self)
        ensures
            final(self)@ == (CartView { mapper: old(self)@.mapper.spec_tick(), ..old(self)@ }),
    {
        self.mapper.tick();
    }
}

impl PpuBus for Cartridge {
    open spec fn spec_ppu_read(m: CartView, addr: u16) -> (u8, CartView) {
        m.spec_ppu_read(addr)
    }

    open spec fn spec_ppu_write(m: CartView, addr: u16, data: u8) -> CartView {
        m.spec_ppu_write(addr, data)
    }

    /// A PPU read: CHR through the mapper at 0x0000-0x1FFF, nametable VRAM through
    /// the arrangement at 0x2000-0x3EFF, 0 elsewhere.
    fn ppu_read(&mut self, addr: u16) -> (r: u8) {
        if addr <= PATTERN_END {
            let chr_size = self.chr.len();
            let i = self.mapper.map_chr(addr, chr_size, &mut self.irq);
            if i < self.chr.len() as u64 { self.chr[i as usize] } else { 0 }
        } else if addr <= NAMETABLE_END {
            let i = vram_idx(addr, self.nt_conf);
            if i < self.vram.len() { self.vram[i] } else { 0 }
        } else {
            0
        }
    }

    /// A PPU write: CHR (only when it is RAM) or nametable VRAM.
    fn ppu_write(&mut self, addr: u16, data: u8) {
        if addr <= PATTERN_END {
            if self.chr_ram {
                let chr_size = self.chr.len();
                let i = self.mapper.map_chr(addr, chr_size, &mut self.irq);
                if i < self.chr.len() as u64 {
                    self.chr.set(i as usize, data);
                }
            }
        } else if addr <= NAMETABLE_END {
            let i = vram_idx(addr, self.nt_conf);
            if i < self.vram.len() {
                self.vram.set(i, data);
            }
        }
    }
}

} // verus!
