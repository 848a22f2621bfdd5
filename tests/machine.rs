use toaster_nes::assemble::{assemble, disassemble};
use toaster_nes::cartridge::Cartridge;
use toaster_nes::controller::{Button, Controller};
use toaster_nes::cpu::Cpu;
use toaster_nes::flat_bus::FlatBus;
use toaster_nes::nes::Nes;
use toaster_nes::ppu::{Ppu, PpuBus, FRAME_SIZE_BYTES};
use toaster_nes::rom::{rom_get_info, rom_parse, Rom};

fn image(prg_banks: u8, chr_banks: u8, flags6: u8, flags7: u8, prg: &[(u16, Vec<u8>)]) -> Vec<u8> {
    let mut data = vec![0x4E, 0x45, 0x53, 0x1A, prg_banks, chr_banks, flags6, flags7, 0, 0, 0, 0, 0, 0, 0, 0];
    let mut prg_rom = vec![0u8; prg_banks as usize * 0x4000];
    for (offset, bytes) in prg {
        for (i, b) in bytes.iter().enumerate() {
            prg_rom[*offset as usize + i] = *b;
        }
    }
    data.extend(prg_rom);
    for i in 0..(chr_banks as usize * 0x2000) {
        data.push((i / 0x2000) as u8);
    }
    data
}

fn nrom_with_nmi_handler() -> Vec<u8> {
    let main = assemble(
        "LDA #$80
        STA $2000
        JMP $8005",
    )
    .unwrap();
    let handler = assemble(
        "LDA #$42
        JMP $9002",
    )
    .unwrap();
    // vectors: NMI 0x9000, RESET 0x8000, IRQ 0x8000
    let vectors = vec![0x00, 0x90, 0x00, 0x80, 0x00, 0x80];
    image(1, 1, 0, 0, &[(0x0000, main), (0x1000, handler), (0x3FFA, vectors)])
}

#[test]
fn vblank_nmi_vectors_through_fffa() {
    let rom = rom_parse(&nrom_with_nmi_handler()).unwrap();
    let mut nes = Nes::init(&rom);
    assert_eq!(nes.cpu.pc, 0x8000);
    let mut frame = vec![0u8; FRAME_SIZE_BYTES];
    nes.frame(&mut frame);
    assert_eq!(nes.cpu.a, 0x42);
    assert!(nes.cpu.pc >= 0x9000 && nes.cpu.pc < 0x9010);
    assert!(nes.cpu.i);
}

#[test]
fn frame_is_89342_dots() {
    let rom = rom_parse(&nrom_with_nmi_handler()).unwrap();
    let mut nes = Nes::init(&rom);
    let mut frame = vec![0u8; FRAME_SIZE_BYTES];
    nes.frame(&mut frame);
    assert_eq!(nes.sys.ppu.cycles(), 89342);
    assert_eq!((nes.sys.ppu.row, nes.sys.ppu.col), (0, 0));
    nes.frame(&mut frame);
    assert_eq!(nes.sys.ppu.cycles(), 2 * 89342);
}

#[test]
fn reset_through_machine() {
    let rom = rom_parse(&nrom_with_nmi_handler()).unwrap();
    let nes = Nes::init(&rom);
    assert_eq!(nes.cpu.cycles, 7);
    assert_eq!(nes.cpu.s, 0xFD);
    assert!(nes.cpu.i);
}

#[test]
fn vblank_set_and_cleared_at_exact_dots() {
    let mut ppu = Ppu::new();
    let mut bus = FlatBus::new();
    let mut frame = vec![0u8; FRAME_SIZE_BYTES];
    while !(ppu.row == 241 && ppu.col == 1) {
        ppu.tick(&mut bus, &mut frame);
        assert_eq!(ppu.status.data & 0x80, 0);
    }
    ppu.tick(&mut bus, &mut frame);
    assert_eq!(ppu.status.data & 0x80, 0x80);
    while !(ppu.row == 261 && ppu.col == 1) {
        ppu.tick(&mut bus, &mut frame);
        assert_eq!(ppu.status.data & 0x80, 0x80);
    }
    ppu.tick(&mut bus, &mut frame);
    assert_eq!(ppu.status.data & 0x80, 0);
}

#[test]
fn nmi_output_follows_ctrl() {
    let mut ppu = Ppu::new();
    let mut bus = FlatBus::new();
    let mut frame = vec![0u8; FRAME_SIZE_BYTES];
    ppu.cpu_write(0x2000, 0x80, &mut bus);
    for _ in 0..(241 * 341 + 2) {
        ppu.tick(&mut bus, &mut frame);
    }
    assert!(ppu.nmi());
    let status = ppu.cpu_read(0x2002, &mut bus);
    assert_eq!(status & 0x80, 0x80);
    ppu.tick(&mut bus, &mut frame);
    assert!(!ppu.nmi());
}

#[test]
fn horizontal_increment_wraps_into_next_nametable() {
    let mut ppu = Ppu::new();
    ppu.v.data = 0x001F;
    ppu.inc_v_hor();
    assert_eq!(ppu.v.data, 0x0400);
    ppu.inc_v_hor();
    assert_eq!(ppu.v.data, 0x0401);
}

#[test]
fn vertical_increment_wraps_at_29_and_31() {
    let mut ppu = Ppu::new();
    ppu.v.data = 0x73A0;
    ppu.inc_v_ver();
    assert_eq!(ppu.v.data, 0x0800);
    ppu.v.data = 0x73E0;
    ppu.inc_v_ver();
    assert_eq!(ppu.v.data, 0x0000);
    ppu.v.data = 0x1000;
    ppu.inc_v_ver();
    assert_eq!(ppu.v.data, 0x2000);
}

#[test]
fn palette_mirrors() {
    let mut ppu = Ppu::new();
    let mut bus = FlatBus::new();
    ppu.cpu_write(0x2006, 0x3F, &mut bus);
    ppu.cpu_write(0x2006, 0x10, &mut bus);
    ppu.cpu_write(0x2007, 0x2A, &mut bus);
    ppu.cpu_write(0x2006, 0x3F, &mut bus);
    ppu.cpu_write(0x2006, 0x00, &mut bus);
    assert_eq!(ppu.cpu_read(0x2007, &mut bus), 0x2A);
    ppu.cpu_write(0x2006, 0x3F, &mut bus);
    ppu.cpu_write(0x2006, 0x0C, &mut bus);
    ppu.cpu_write(0x2007, 0x11, &mut bus);
    ppu.cpu_write(0x2006, 0x3F, &mut bus);
    ppu.cpu_write(0x2006, 0x1C, &mut bus);
    assert_eq!(ppu.cpu_read(0x2007, &mut bus), 0x11);
}

#[test]
fn ppudata_read_is_buffered() {
    let mut ppu = Ppu::new();
    let mut bus = FlatBus::new();
    bus.write(0x2100, 0x55);
    bus.write(0x2101, 0x66);
    ppu.cpu_write(0x2006, 0x21, &mut bus);
    ppu.cpu_write(0x2006, 0x00, &mut bus);
    assert_eq!(ppu.cpu_read(0x2007, &mut bus), 0x00);
    assert_eq!(ppu.cpu_read(0x2007, &mut bus), 0x55);
    assert_eq!(ppu.cpu_read(0x2007, &mut bus), 0x66);
}

fn rom_of(mapper: u8, prg_banks: usize, chr_banks: usize) -> Rom {
    let mut prg_rom = vec![0u8; prg_banks * 0x4000];
    for (i, b) in prg_rom.iter_mut().enumerate() {
        *b = (i / 0x4000) as u8 ^ (i as u8);
    }
    let mut chr_rom = vec![0u8; chr_banks * 0x2000];
    for (i, b) in chr_rom.iter_mut().enumerate() {
        *b = (i / 0x2000) as u8 ^ (i as u8);
    }
    Rom { prg_rom, chr_rom, mapper, prg_ram_size: 0x2000, chr_ram_size: 0, vert_mirrored: false }
}

#[test]
fn mapper0_reads_prg_modulo_size() {
    let rom = rom_of(0, 1, 1);
    let cart = Cartridge::init(&rom);
    for k in [0usize, 1, 0x3FFF, 0x4000, 0x7FFF] {
        assert_eq!(cart.cpu_read(0x8000 + k as u16), rom.prg_rom[k % 0x4000]);
    }
}

#[test]
fn mapper2_keeps_last_bank_fixed() {
    let rom = rom_of(2, 4, 1);
    let mut cart = Cartridge::init(&rom);
    cart.cpu_write(0x8000, 1);
    assert_eq!(cart.cpu_read(0x8005), rom.prg_rom[0x4000 + 5]);
    assert_eq!(cart.cpu_read(0xC005), rom.prg_rom[3 * 0x4000 + 5]);
    cart.cpu_write(0x8000, 6);
    assert_eq!(cart.cpu_read(0x8005), rom.prg_rom[2 * 0x4000 + 5]);
    assert_eq!(cart.cpu_read(0xFFFF), rom.prg_rom[4 * 0x4000 - 1]);
}

#[test]
fn mapper3_switches_chr_bank() {
    let rom = rom_of(3, 1, 4);
    let mut cart = Cartridge::init(&rom);
    cart.cpu_write(0x8000, 2);
    assert_eq!(cart.ppu_read(0x0010), rom.chr_rom[2 * 0x2000 + 0x10]);
    cart.cpu_write(0x8000, 5);
    assert_eq!(cart.ppu_read(0x1FFF), rom.chr_rom[0x2000 + 0x1FFF]);
}

#[test]
fn mapper1_serial_load_and_reset() {
    let rom = rom_of(1, 8, 2);
    let mut cart = Cartridge::init(&rom);
    // PRG bank register (0xE000) <- 0b00011, written LSB first
    for bit in [1u8, 1, 0, 0, 0] {
        cart.cpu_write(0xE000, bit);
    }
    // control defaults to fix-last mode: 0x8000 is the switchable bank 3
    assert_eq!(cart.cpu_read(0x8000), rom.prg_rom[3 * 0x4000]);
    assert_eq!(cart.cpu_read(0xC000), rom.prg_rom[7 * 0x4000]);
    // a half-written value is dropped by a reset write
    cart.cpu_write(0xE000, 1);
    cart.cpu_write(0xE000, 0x80);
    for bit in [0u8, 1, 0, 0, 0] {
        cart.cpu_write(0xE000, bit);
    }
    assert_eq!(cart.cpu_read(0x8000), rom.prg_rom[2 * 0x4000]);
}

#[test]
fn mmc3_irq_counts_filtered_a12_rises() {
    let rom = rom_of(4, 2, 2);
    let mut cart = Cartridge::init(&rom);
    cart.cpu_write(0xC000, 2); // latch
    cart.cpu_write(0xC001, 0); // reload
    cart.cpu_write(0xE001, 0); // enable
    let mut rises = 0;
    while !cart.irq() {
        for _ in 0..8 {
            cart.tick();
        }
        cart.ppu_read(0x0000);
        for _ in 0..8 {
            cart.tick();
        }
        cart.ppu_read(0x1000);
        rises += 1;
        assert!(rises < 10);
    }
    assert_eq!(rises, 3);
    cart.ppu_read(0x0000);
    cart.ppu_read(0x1000);
    assert!(cart.irq());
    cart.cpu_write(0xE000, 0);
    assert!(!cart.irq());
}

#[test]
fn nametable_mirroring() {
    let mut rom = rom_of(0, 1, 1);
    rom.vert_mirrored = true;
    let mut cart = Cartridge::init(&rom);
    cart.ppu_write(0x2005, 0x77);
    assert_eq!(cart.ppu_read(0x2805), 0x77);
    assert_eq!(cart.ppu_read(0x2405), 0x00);
    let mut rom = rom_of(0, 1, 1);
    rom.vert_mirrored = false;
    let mut cart = Cartridge::init(&rom);
    cart.ppu_write(0x2005, 0x77);
    assert_eq!(cart.ppu_read(0x2405), 0x77);
    assert_eq!(cart.ppu_read(0x2805), 0x00);
}

#[test]
fn rom_parse_reads_header() {
    let data = image(2, 1, 0x21, 0x00, &[]);
    let rom = rom_parse(&data).unwrap();
    assert_eq!(rom.prg_rom.len(), 0x8000);
    assert_eq!(rom.chr_rom.len(), 0x2000);
    assert_eq!(rom.mapper, 2);
    assert!(rom.vert_mirrored);
    assert_eq!(rom.prg_ram_size, 0x2000);
    assert_eq!(rom.chr_ram_size, 0);
    let data = image(1, 0, 0x00, 0x00, &[]);
    let rom = rom_parse(&data).unwrap();
    assert_eq!(rom.chr_ram_size, 0x2000);
}

#[test]
fn rom_parse_errors() {
    let mut bad_magic = image(1, 1, 0, 0, &[]);
    bad_magic[0] = b'X';
    assert!(rom_parse(&bad_magic).is_err());
    let mut truncated = image(1, 1, 0, 0, &[]);
    truncated.pop();
    assert!(rom_parse(&truncated).is_err());
    assert!(rom_parse(&[0x4E, 0x45, 0x53]).is_err());
    let unsupported = image(1, 1, 0x50, 0, &[]);
    assert!(rom_parse(&unsupported).is_err());
}

#[test]
fn controller_shifts_buttons_in_order() {
    let mut c = Controller::new();
    c.set_button_state(Button::A, true);
    c.set_button_state(Button::Start, true);
    c.set_button_state(Button::Right, true);
    c.set_button_state(Button::Start, false);
    c.strobe = true;
    c.update();
    c.strobe = false;
    let bits: Vec<u8> = (0..8).map(|_| c.read()).collect();
    assert_eq!(bits, vec![1, 0, 0, 0, 0, 0, 0, 1]);
}

#[test]
fn adc_then_sbc_restores_a() {
    let mut cpu = Cpu::new();
    let mut bus = FlatBus::new();
    let prg = assemble(
        "LDA #$37
        CLC
        ADC #$5A
        SEC
        SBC #$5A",
    )
    .unwrap();
    for (i, b) in prg.iter().enumerate() {
        bus.write(0x8000 + i as u16, *b);
    }
    bus.write(0xFFFD, 0x80);
    cpu.reset = true;
    cpu.step(&mut bus);
    cpu.reset = false;
    for _ in 0..5 {
        cpu.step(&mut bus);
    }
    assert_eq!(cpu.a, 0x37);
    assert!(cpu.c);
}

#[test]
fn undocumented_opcode_halts_with_diagnostic() {
    let mut cpu = Cpu::new();
    let mut bus = FlatBus::new();
    bus.write(0xFFFD, 0x80);
    bus.write(0x8000, 0x02);
    cpu.reset = true;
    cpu.step(&mut bus);
    cpu.reset = false;
    cpu.step(&mut bus);
    assert_eq!(cpu.fault(), Some((0x8000, 0x02)));
    let pc = cpu.pc;
    cpu.step(&mut bus);
    assert_eq!(cpu.pc, pc);
}

#[test]
fn assembler_encodes_and_rejects() {
    assert_eq!(assemble("LDA #$FF ; load").unwrap(), vec![0xA9, 0xFF]);
    assert_eq!(assemble("STA $1234,X").unwrap(), vec![0x9D, 0x34, 0x12]);
    assert_eq!(assemble("ASL A\n\nROR").unwrap(), vec![0x0A, 0x6A]);
    assert!(assemble("FOO").is_err());
    assert!(assemble("LDA #$FF extra").is_err());
    assert!(assemble("STA #$01").is_err());
}

#[test]
fn disassembler_formats_and_rejects() {
    let text = disassemble(&[0xA9, 0xFF, 0x8D, 0x22, 0x11, 0x0A, 0x6C, 0xFF, 0x10, 0xB1, 0x05]).unwrap();
    assert_eq!(text, "LDA #$FF\nSTA $1122\nASL A\nJMP ($10FF)\nLDA ($05),Y");
    assert_eq!(disassemble(&[]).unwrap(), "");
    assert!(disassemble(&[0x02]).is_err());
    assert!(disassemble(&[0xAD, 0x00]).is_err());
}

#[test]
fn assemble_disassemble_round_trip() {
    let src = "ADC $00FE,X\nBCC $03\nSTA ($10,X)\nCPY #$FF\nRTI";
    let bin = assemble(src).unwrap();
    assert_eq!(disassemble(&bin).unwrap(), src);
}

#[test]
fn rom_info_lists_sizes() {
    let rom = rom_of(4, 2, 1);
    assert_eq!(
        rom_get_info(&rom),
        "PRG ROM Size: 32768\nCHR ROM Size: 8192\nPRG RAM Size: 8192\nCHR RAM Size: 0\nMapper:       4"
    );
}

#[test]
fn assembler_reports_failing_line() {
    assert_eq!(assemble("LDA #$FF\nSEC\nRTS").unwrap(), vec![0xA9, 0xFF, 0x38, 0x60]);
    assert_eq!(assemble("JSR $8888").unwrap(), vec![0x20, 0x88, 0x88]);
    assert_eq!(assemble("FOO").unwrap_err(), "Error at line 0: invalid instruction");
    assert_eq!(assemble("LDA #$FF\nFOO\nSEC").unwrap_err(), "Error at line 1: invalid instruction");
}

#[test]
fn disassembler_reports_failing_byte() {
    assert_eq!(disassemble(&[0xA9, 0xFF, 0x02]).unwrap_err(), "Error at byte 2: invalid opcode");
    assert_eq!(disassemble(&[0xAD, 0x00]).unwrap_err(), "Error at byte 0: not enough arguments");
}

#[test]
fn left_column_mask_makes_background_transparent() {
    let mut ppu = Ppu::new();
    let mut bus = FlatBus::new();
    let mut frame = vec![0u8; FRAME_SIZE_BYTES];
    // background and sprites on, sprites shown in the left column, background hidden there
    ppu.mask.data = 0x08 | 0x10 | 0x04;
    ppu.row = 0;
    ppu.col = 1;
    ppu.bg_patt_shift_reg_0 = 0xFFFF;
    ppu.sprite_infos[0] = toaster_nes::ppu::SpriteInfo {
        x_pos: 0,
        y_pos: 0,
        fine_y: 0,
        pattern_table: 0,
        tile: 0,
        attr: toaster_nes::ppu_regs::SpriteAttr { data: 0x20 },
        sprite_0: true,
    };
    ppu.sprite_patterns_0[0] = 0x80;
    ppu.palette_ram[0x00] = 0x0F;
    ppu.palette_ram[0x01] = 0x2A;
    ppu.palette_ram[0x11] = 0x16;
    ppu.tick(&mut bus, &mut frame);
    // the sprite sits behind the background, but the masked background is transparent
    assert_eq!(&frame[0..3], &[152, 34, 32]);
    // and a masked background gives no sprite-0 hit
    assert_eq!(ppu.status.data & 0x40, 0);
}
