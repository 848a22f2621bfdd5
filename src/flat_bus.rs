//! A bus over 64 KiB of plain memory: every address reads back what was last
//! written there.
use vstd::prelude::*;
use crate::cpu::CpuBus;
use crate::ppu::PpuBus;

verus! {

/// 64 KiB of plain memory.
pub struct FlatBus {
    mem: Vec<u8>,
}

/// The byte at `addr` of a memory image; 0 past its end.
pub open spec fn peek(m: Seq<u8>, addr: u16) -> u8 {
    if (addr as int) < m.len() { m[addr as int] } else { 0 }
}

/// A memory image with the byte at `addr` replaced; unchanged past its end.
pub open spec fn poke(m: Seq<u8>, addr: u16, data: u8) -> Seq<u8> {
    if (addr as int) < m.len() { m.update(addr as int, data) } else { m }
}

impl View for FlatBus {
    type V = Seq<u8>;

    closed spec fn view(&self) -> Seq<u8> {
        self.mem@
    }
}

impl FlatBus {
    /// Memory of 64 KiB, all zero.
    pub fn new() -> (r: FlatBus)
        ensures
            r@ == Seq::new(0x10000, |i: int| 0u8),
    {
        let mut mem: Vec<u8> = Vec::new();
        let mut i: usize = 0;
        while i < 0x10000
            invariant
                i <= 0x10000,
                mem@ == Seq::new(i as nat, |k: int| 0u8),
            decreases 0x10000 - i,
        {
            mem.push(0);
            i = i + 1;
            assert(mem@ =~= Seq::new(i as nat, |k: int| 0u8));
        }
        FlatBus { mem }
    }

    /// Reads a byte.
    pub fn read(&self, addr: u16) -> (r: u8)
        ensures
            r == peek(self@, addr),
    {
        if (addr as usize) < self.mem.len() {
            self.mem[addr as usize]
        } else {
            0
        }
    }

    /// Writes a byte.
    pub fn write(&mut self, addr: u16, data: u8)
        ensures
            final(self)@ == poke(old(self)@, addr, data),
    {
        if (addr as usize) < self.mem.len() {
            self.mem.set(addr as usize, data);
        }
    }
}

impl CpuBus for FlatBus {
    type Pinned = ();

    open spec fn pinned(&self) -> () {
        ()
    }

    open spec fn spec_read(m: Seq<u8>, addr: u16) -> u8 {
        peek(m, addr)
    }

    open spec fn spec_after_read(m: Seq<u8>, addr: u16) -> Seq<u8> {
        m
    }

    open spec fn spec_after_write(m: Seq<u8>, addr: u16, data: u8) -> Seq<u8> {
        poke(m, addr, data)
    }

    fn cpu_read(&mut self, addr: u16) -> (r: u8) {
        self.read(addr)
    }

    fn cpu_write(&mut self, addr: u16, data: u8) {
        self.write(addr, data)
    }
}

impl PpuBus for FlatBus {
    open spec fn spec_ppu_read(m: Seq<u8>, addr: u16) -> (u8, Seq<u8>) {
        (peek(m, addr), m)
    }

    open spec fn spec_ppu_write(m: Seq<u8>, addr: u16, data: u8) -> Seq<u8> {
        poke(m, addr, data)
    }

    fn ppu_read(&mut self, addr: u16) -> (r: u8) {
        self.read(addr)
    }

    fn ppu_write(&mut self, addr: u16, data: u8) {
        self.write(addr, data)
    }
}

} // verus!
