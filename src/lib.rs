//! A cycle-counting NES emulator core: a 6502 interpreter, the picture processing
//! unit, cartridge mappers 0 to 4, the controller port and the machine that ties them
//! together, each stated over a mathematical model and verified against it.
pub mod opcodes;
pub mod cpu;
pub mod flat_bus;
pub mod cpu_laws;
pub mod mapper;
pub mod mapper_laws;
pub mod rom;
pub mod ppu_regs;
pub mod ppu_palette;
pub mod ppu;
pub mod ppu_laws;
pub mod cartridge;
pub mod assemble;
pub mod controller;
pub mod nes;
