//! The machine: the CPU bus router (RAM, PPU registers, controller, OAM DMA,
//! cartridge), and the tick that interleaves three PPU dots with one CPU cycle.
use vstd::prelude::*;
use crate::cartridge::{CartView, Cartridge, byte_at, get_byte, put_byte, set_byte};
use crate::controller::{Button, Controller};
use crate::cpu::{Cpu, CpuBus, add64, inc16, inc64, lemma_add64_step, word};
use crate::cpu_laws::law_reset;
use crate::ppu::{CYCLES_PER_FRAME, FRAME_SIZE_BYTES, NUM_COLS, NUM_ROWS, OAM_DATA, Ppu, PpuCore, PpuView};
use crate::ppu_laws::{law_frame_length, pos_after};
use crate::rom::Rom;

verus! {

pub const RAM_SIZE: usize = 0x800;
pub const RAM_END: u16 = 0x1FFF;
pub const PPU_REG_START: u16 = 0x2000;
pub const PPU_REG_END: u16 = 0x3FFF;
pub const DMA_REG: u16 = 0x4014;
pub const BUTTON_REG: u16 = 0x4016;
pub const CPU_CART_START: u16 = 0x4020;

/// Everything the CPU reaches through its bus.
pub struct System {
    pub ram: Vec<u8>,
    pub ppu: Ppu,
    pub cartridge: Cartridge,
    pub controller: Controller,
    pub dma_flag: bool,
    pub dma_addr: u16,
    pub cpu_bus_val: u8,
}

/// The state of the CPU's bus.
pub struct SystemView {
    pub ram: Seq<u8>,
    pub ppu: PpuView,
    pub cart: CartView,
    pub controller: Controller,
    pub dma_flag: bool,
    pub dma_addr: u16,
    pub bus_val: u8,
}

impl View for System {
    type V = SystemView;

    open spec fn view(&self) -> SystemView {
        SystemView {
            ram: self.ram@,
            ppu: self.ppu@,
            cart: self.cartridge@,
            controller: self.controller,
            dma_flag: self.dma_flag,
            dma_addr: self.dma_addr,
            bus_val: self.cpu_bus_val,
        }
    }
}

impl SystemView {
    /// A CPU read: the value and the bus after it. RAM is mirrored every 2 KiB,
    /// PPU registers every 8 bytes; 0x4016 reads the controller over the open-bus
    /// high bits; unmapped addresses read the last value on the bus, which every
    /// read updates.
    pub open spec fn spec_read(self, addr: u16) -> (u8, SystemView) {
        if addr <= RAM_END {
            let b = byte_at(self.ram, (addr % 0x800) as int);
            (b, SystemView { bus_val: b, ..self })
        } else if addr <= PPU_REG_END {
            let (b, p, c) = self.ppu.spec_cpu_read::<Cartridge>(self.cart, addr);
            (b, SystemView { ppu: p, cart: c, bus_val: b, ..self })
        } else if addr >= CPU_CART_START {
            let b = self.cart.spec_cpu_read(addr);
            (b, SystemView { bus_val: b, ..self })
        } else if addr == BUTTON_REG {
            let b = (self.controller.buttons_latched % 2) | (self.bus_val & 0xF0);
            (b, SystemView {
                controller: Controller { buttons_latched: self.controller.buttons_latched / 2, ..self.controller },
                bus_val: b,
                ..self
            })
        } else {
            (self.bus_val, self)
        }
    }

    /// A CPU write: RAM, PPU registers, the cartridge, the OAM DMA trigger
    /// (source page `data`), the controller strobe (bit 0).
    pub open spec fn spec_write(self, addr: u16, data: u8) -> SystemView {
        if addr <= RAM_END {
            SystemView { ram: put_byte(self.ram, (addr % 0x800) as int, data), ..self }
        } else if addr <= PPU_REG_END {
            let (p, c) = self.ppu.spec_cpu_write::<Cartridge>(self.cart, addr, data);
            SystemView { ppu: p, cart: c, ..self }
        } else if addr >= CPU_CART_START {
            SystemView { cart: self.cart.spec_cpu_write(addr, data), ..self }
        } else if addr == DMA_REG {
            SystemView { dma_addr: (data as u16 * 256) as u16, dma_flag: true, ..self }
        } else if addr == BUTTON_REG {
            SystemView { controller: Controller { strobe: data % 2 == 1, ..self.controller }, ..self }
        } else {
            self
        }
    }
}

impl CpuBus for System {
    type Pinned = PpuCore;

    open spec fn pinned(&self) -> PpuCore {
        self.ppu.spec_core()
    }

    open spec fn spec_read(m: SystemView, addr: u16) -> u8 {
        m.spec_read(addr).0
    }

    open spec fn spec_after_read(m: SystemView, addr: u16) -> SystemView {
        m.spec_read(addr).1
    }

    open spec fn spec_after_write(m: SystemView, addr: u16, data: u8) -> SystemView {
        m.spec_write(addr, data)
    }

    fn cpu_read(&mut self, addr: u16) -> (r: u8) {
        let b = if addr <= RAM_END {
            get_byte(&self.ram, (addr % 0x800) as usize)
        } else if addr <= PPU_REG_END {
            self.ppu.cpu_read(addr, &mut self.cartridge)
        } else if addr >= CPU_CART_START {
            self.cartridge.cpu_read(addr)
        } else if addr == BUTTON_REG {
            self.controller.read() | (self.cpu_bus_val & 0xF0)
        } else {
            self.cpu_bus_val
        };
        self.cpu_bus_val = b;
        b
    }

    fn cpu_write(&mut self, addr: u16, data: u8) {
        if addr <= RAM_END {
            set_byte(&mut self.ram, (addr % 0x800) as usize, data);
        } else if addr <= PPU_REG_END {
            self.ppu.cpu_write(addr, data, &mut self.cartridge);
        } else if addr >= CPU_CART_START {
            self.cartridge.cpu_write(addr, data);
        } else if addr == DMA_REG {
            self.dma_addr = data as u16 * 256;
            self.dma_flag = true;
        } else if addr == BUTTON_REG {
            self.controller.strobe = data % 2 == 1;
        }
    }
}

/// The whole machine.
pub struct Nes {
    pub cpu: Cpu,
    pub sys: System,
    pub dma_data: u8,
    pub dma_write_toggle: bool,
}

fn ram_init() -> (r: Vec<u8>)
    ensures
        r@ == Seq::new(RAM_SIZE as nat, |i: int| 0xFFu8),
{
    let mut v: Vec<u8> = Vec::new();
    let mut i: usize = 0;
    while i < RAM_SIZE
        invariant
            i <= RAM_SIZE,
            v@ == Seq::new(i as nat, |k: int| 0xFFu8),
        decreases RAM_SIZE - i,
    {
        v.push(0xFF);
        i = i + 1;
        assert(v@ =~= Seq::new(i as nat, |k: int| 0xFFu8));
    }
    v
}

impl Nes {
    /// Builds the machine from a parsed image and puts the CPU through RESET: PC
    /// from the vector at 0xFFFC, I set, seven cycles counted.
    pub fn init(rom: &Rom) -> (r: Nes)
        requires
            rom.wf(),
        ensures
            r.cpu.cycles == 7 && r.cpu.ins_cycles == 0 && !r.cpu.reset,
            r.cpu.i && r.cpu.s == 0xFD,
            r.cpu.pc == word(r.sys.cartridge@.spec_cpu_read(0xFFFC), r.sys.cartridge@.spec_cpu_read(0xFFFD)),
            r.sys.ppu.row == 0 && r.sys.ppu.col == 0 && r.sys.ppu.cycles == 0 && !r.sys.ppu.nmi,
    {
        let mut sys = System {
            ram: ram_init(),
            ppu: Ppu::new(),
            cartridge: Cartridge::init(rom),
            controller: Controller::new(),
            dma_flag: false,
            dma_addr: 0,
            cpu_bus_val: 0,
        };
        let mut cpu = Cpu::new();
        cpu.reset = true;
        let ghost c0 = cpu;
        let ghost s0 = sys@;
        cpu.step(&mut sys);
        proof {
            law_reset::<System>(c0.spec_sample(), s0);
        }
        cpu.reset = false;
        Nes { cpu, sys, dma_data: 0, dma_write_toggle: false }
    }

    /// Runs one frame: exactly 89,342 PPU dots, after which the PPU is back at
    /// the dot where it started.
    pub fn frame(&mut self, frame: &mut Vec<u8>)
        requires
            old(frame)@.len() == FRAME_SIZE_BYTES,
            old(self).sys.ppu.row < NUM_ROWS && old(self).sys.ppu.col < NUM_COLS,
        ensures
            final(frame)@.len() == FRAME_SIZE_BYTES,
            final(self).sys.ppu.cycles == add64(old(self).sys.ppu.cycles, CYCLES_PER_FRAME as nat),
            final(self).sys.ppu.row == old(self).sys.ppu.row && final(self).sys.ppu.col == old(self).sys.ppu.col,
    {
        let ghost r0 = self.sys.ppu.row as int;
        let ghost c0 = self.sys.ppu.col as int;
        let ghost y0 = self.sys.ppu.cycles;
        let mut k: u32 = 0;
        while k < CYCLES_PER_FRAME
            invariant
                frame@.len() == FRAME_SIZE_BYTES,
                k <= CYCLES_PER_FRAME,
                0 <= r0 < NUM_ROWS && 0 <= c0 < NUM_COLS,
                (self.sys.ppu.row as int, self.sys.ppu.col as int) == pos_after(r0, c0, k as nat),
                self.sys.ppu.cycles == add64(y0, k as nat),
            decreases CYCLES_PER_FRAME - k,
        {
            proof {
                lemma_add64_step(y0, k as nat);
            }
            self.tick(frame);
            k = k + 1;
        }
        proof {
            law_frame_length(r0, c0);
        }
    }

    /// Presses or releases a controller button.
    pub fn set_button_state(&mut self, button: Button, pressed: bool)
        ensures
            final(self).sys.controller.buttons_dyn == (if pressed {
                old(self).sys.controller.buttons_dyn | button.spec_mask()
            } else {
                old(self).sys.controller.buttons_dyn & !button.spec_mask()
            }),
    {
        self.sys.controller.set_button_state(button, pressed);
    }

    /// One PPU dot; on every third dot one CPU cycle, or one DMA step while OAM
    /// DMA runs, and the controller latch; the NMI and IRQ lines are routed; the
    /// mapper counts the dot.
    #[verifier::rlimit(100)]
    pub fn tick(&mut self, frame: &mut Vec<u8>)
        requires
            old(frame)@.len() == FRAME_SIZE_BYTES,
        ensures
            final(frame)@.len() == FRAME_SIZE_BYTES,
            ({
                let p = old(self).sys.ppu;
                let visible = p.row < 240 && 1 <= p.col <= 256;
                let (c, hit) = Ppu::pre_draw(p).spec_pixel();
                let i = p.pixel_offset();
                final(frame)@ == (if visible {
                    old(frame)@.update(i, c.0).update(i + 1, c.1).update(i + 2, c.2)
                } else {
                    old(frame)@
                })
            }),
            final(self).sys.ppu.col == (old(self).sys.ppu.col + 1) % NUM_COLS as int,
            final(self).sys.ppu.row == (if (old(self).sys.ppu.col + 1) % NUM_COLS as int == 0 {
                (old(self).sys.ppu.row + 1) % NUM_ROWS as int
            } else {
                old(self).sys.ppu.row as int
            }),
            final(self).sys.ppu.cycles == inc64(old(self).sys.ppu.cycles),
            final(self).cpu.nmi == final(self).sys.ppu.nmi,
            old(self).sys.ppu.row == 241 && old(self).sys.ppu.col == 1 ==> final(self).sys.ppu.nmi == (
            old(self).sys.ppu.ctrl.data >= 0x80),
            old(self).sys.ppu.row == 261 && old(self).sys.ppu.col == 1 ==> !final(self).sys.ppu.nmi,
            inc64(old(self).sys.ppu.cycles) % 3 == 0 && !old(self).sys.dma_flag ==> final(self).cpu.cycles == inc64(
                old(self).cpu.cycles,
            ),
            inc64(old(self).sys.ppu.cycles) % 3 != 0 || old(self).sys.dma_flag ==> final(self).cpu == (Cpu {
                nmi: final(self).cpu.nmi,
                irq: final(self).cpu.irq,
                ..old(self).cpu
            }),
            inc64(old(self).sys.ppu.cycles) % 3 != 0 ==> final(self).cpu.irq == final(self).sys.cartridge@.irq,
            inc64(old(self).sys.ppu.cycles) % 3 != 0 ==> final(self).sys.controller == old(self).sys.controller,
            inc64(old(self).sys.ppu.cycles) % 3 == 0 && final(self).sys.controller.strobe
                ==> final(self).sys.controller.buttons_latched == final(self).sys.controller.buttons_dyn,
    {
        let s0 = self.sys.ppu.status.data;
        assert((s0 | 0x80) >= 0x80 && (s0 & 0x1F) < 0x80) by (bit_vector);
        self.sys.ppu.tick(&mut self.sys.cartridge, frame);
        let ghost after_dot = self.sys.ppu.spec_core();
        self.cpu.nmi = self.sys.ppu.nmi();
        self.cpu.irq = self.sys.cartridge.irq();
        if self.sys.ppu.cycles() % 3 == 0 {
            if !self.sys.dma_flag {
                self.cpu.tick(&mut self.sys);
            } else {
                self.dma_tick();
            }
            self.sys.controller.update();
        }
        self.sys.cartridge.tick();
        assert(self.sys.ppu.spec_core() == after_dot);
    }

    /// One OAM DMA step: read a byte from the source and advance it, or write the
    /// byte to OAMDATA; the transfer ends after the write once the source's low
    /// byte has wrapped to zero.
    fn dma_tick(&mut self)
        ensures
            final(self).cpu == old(self).cpu,
            final(self).sys.ppu.spec_core() == old(self).sys.ppu.spec_core(),
            final(self).sys.controller == old(self).sys.controller || !old(self).dma_write_toggle,
            final(self).dma_write_toggle == !old(self).dma_write_toggle,
            !old(self).dma_write_toggle ==> ({
                let (b, m) = old(self).sys@.spec_read(old(self).sys.dma_addr);
                &&& final(self).dma_data == b
                &&& final(self).sys@ == (SystemView { dma_addr: inc16(old(self).sys.dma_addr), ..m })
            }),
            old(self).dma_write_toggle ==> ({
                let (p, c) = old(self).sys@.ppu.spec_cpu_write::<Cartridge>(
                    old(self).sys@.cart,
                    (PPU_REG_START + OAM_DATA) as u16,
                    old(self).dma_data,
                );
                &&& final(self).sys@ == (SystemView {
                    ppu: p,
                    cart: c,
                    dma_flag: old(self).sys.dma_flag && old(self).sys.dma_addr % 256 != 0,
                    ..old(self).sys@
                })
            }),
    {
        if !self.dma_write_toggle {
            let a = self.sys.dma_addr;
            self.dma_data = self.sys.cpu_read(a);
            self.sys.dma_addr = if self.sys.dma_addr == 0xFFFF { 0 } else { self.sys.dma_addr + 1 };
        } else {
            self.sys.ppu.cpu_write(PPU_REG_START + OAM_DATA, self.dma_data, &mut self.sys.cartridge);
            if self.sys.dma_addr % 256 == 0 {
                self.sys.dma_flag = false;
            }
        }
        self.dma_write_toggle = !self.dma_write_toggle;
    }
}

} // verus!
