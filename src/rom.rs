//! The cartridge image format (iNES and NES 2.0): a 16-byte header, an optional
//! 512-byte trainer, then PRG-ROM and CHR-ROM.
use vstd::prelude::*;
use vstd::string::StringExecFns;

verus! {

pub const HDR_SIZE: usize = 16;
pub const TRAINER_SIZE: usize = 512;

/// A parsed cartridge image.
pub struct Rom {
    pub prg_rom: Vec<u8>,
    pub chr_rom: Vec<u8>,
    pub mapper: u8,
    pub prg_ram_size: u16,
    pub chr_ram_size: u16,
    pub vert_mirrored: bool,
}

impl Rom {
    /// The image names a supported mapper.
    pub open spec fn wf(&self) -> bool {
        self.mapper <= 4
    }
}

pub open spec fn is_ines2(d: Seq<u8>) -> bool {
    (d[7] / 4) % 4 == 2
}

pub open spec fn prg_rom_size(d: Seq<u8>) -> int {
    d[4] * 0x4000
}

pub open spec fn chr_rom_size(d: Seq<u8>) -> int {
    d[5] * 0x2000
}

pub open spec fn prg_rom_offset(d: Seq<u8>) -> int {
    HDR_SIZE + (if (d[6] / 4) % 2 == 1 { TRAINER_SIZE as int } else { 0 })
}

pub open spec fn mapper_id(d: Seq<u8>) -> u8 {
    (d[6] / 16 + (d[7] / 16) * 16) as u8
}

/// The RAM size that a NES 2.0 shift count encodes: 64 << count, none for 0.
pub open spec fn ram_size_of(count: u8) -> int {
    if count == 0 { 0 } else { 64 * vstd::arithmetic::power2::pow2(count as nat) as int }
}

pub open spec fn prg_ram_size_of(d: Seq<u8>) -> int {
    if is_ines2(d) { ram_size_of(d[10] % 16) } else { 0x2000 }
}

pub open spec fn chr_ram_size_of(d: Seq<u8>) -> int {
    if is_ines2(d) { ram_size_of(d[11] % 16) } else if chr_rom_size(d) == 0 { 0x2000 } else { 0 }
}

/// A well-formed image: the magic "NES\x1A", at least one PRG bank (without
/// PRG-ROM there is no reset vector, so the machine could not start), a mapper
/// of 0 to 4, RAM sizes under 64 KiB, and all the data that the header announces.
pub open spec fn image_ok(d: Seq<u8>) -> bool {
    &&& d.len() >= HDR_SIZE
    &&& d[0] == 0x4E && d[1] == 0x45 && d[2] == 0x53 && d[3] == 0x1A
    &&& d[4] >= 1
    &&& mapper_id(d) <= 4
    &&& prg_ram_size_of(d) < 0x10000 && chr_ram_size_of(d) < 0x10000
    &&& d.len() >= prg_rom_offset(d) + prg_rom_size(d) + chr_rom_size(d)
}

fn ram_size(count: u8) -> (r: u32)
    requires
        count < 16,
    ensures
        r == ram_size_of(count),
{
    proof {
        vstd::arithmetic::power2::lemma2_to64();
    }
    match count {
        0 => 0,
        1 => 128,
        2 => 256,
        3 => 512,
        4 => 1024,
        5 => 2048,
        6 => 4096,
        7 => 8192,
        8 => 16384,
        9 => 32768,
        10 => 65536,
        11 => 131072,
        12 => 262144,
        13 => 524288,
        14 => 1048576,
        _ => 2097152,
    }
}

fn copy_range(data: &[u8], start: usize, len: usize) -> (r: Vec<u8>)
    requires
        start + len <= data@.len(),
    ensures
        r@ == data@.subrange(start as int, start + len),
{
    let mut v: Vec<u8> = Vec::new();
    let mut i: usize = 0;
    let n = data.len();
    while i < len
        invariant
            i <= len,
            n == data@.len(),
            start + len <= n,
            v@ == data@.subrange(start as int, start + i),
        decreases len - i,
    {
        v.push(data[start + i]);
        i = i + 1;
        assert(v@ =~= data@.subrange(start as int, start + i));
    }
    v
}

/// Parses a cartridge image. Fails exactly on an image that is not well formed.
pub fn rom_parse(data: &[u8]) -> (r: Result<Rom, String>)
    ensures
        r is Ok <==> image_ok(data@),
        r matches Ok(rom) ==> {
            let d = data@;
            &&& rom.wf()
            &&& rom.prg_rom@ == d.subrange(prg_rom_offset(d), prg_rom_offset(d) + prg_rom_size(d))
            &&& rom.chr_rom@ == d.subrange(
                prg_rom_offset(d) + prg_rom_size(d),
                prg_rom_offset(d) + prg_rom_size(d) + chr_rom_size(d),
            )
            &&& rom.mapper == mapper_id(d)
            &&& rom.prg_ram_size == prg_ram_size_of(d)
            &&& rom.chr_ram_size == chr_ram_size_of(d)
            &&& rom.vert_mirrored == (d[6] % 2 == 1)
        },
{
    if data.len() < HDR_SIZE {
        return Err("truncated header".to_owned());
    }
    if data[0] != 0x4E || data[1] != 0x45 || data[2] != 0x53 || data[3] != 0x1A {
        return Err("bad magic".to_owned());
    }
    if data[4] == 0 {
        return Err("no PRG-ROM".to_owned());
    }
    let mapper: u8 = data[6] / 16 + (data[7] / 16) * 16;
    if mapper > 4 {
        return Err("unsupported mapper".to_owned());
    }
    let ines_2 = (data[7] / 4) % 4 == 2;
    let prg_rom_size = data[4] as usize * 0x4000;
    let chr_rom_size = data[5] as usize * 0x2000;
    let prg_rom_offset: usize = HDR_SIZE + if (data[6] / 4) % 2 == 1 { TRAINER_SIZE } else { 0 };
    let prg_ram: u32 = if ines_2 { ram_size(data[10] % 16) } else { 0x2000 };
    let chr_ram: u32 = if ines_2 {
        ram_size(data[11] % 16)
    } else if chr_rom_size == 0 {
        0x2000
    } else {
        0
    };
    if prg_ram >= 0x10000 || chr_ram >= 0x10000 {
        return Err("unsupported RAM size".to_owned());
    }
    if data.len() < prg_rom_offset + prg_rom_size + chr_rom_size {
        return Err("truncated data".to_owned());
    }
    let prg_rom = copy_range(data, prg_rom_offset, prg_rom_size);
    let chr_rom = copy_range(data, prg_rom_offset + prg_rom_size, chr_rom_size);
    Ok(Rom {
        prg_rom,
        chr_rom,
        mapper,
        prg_ram_size: prg_ram as u16,
        chr_ram_size: chr_ram as u16,
        vert_mirrored: data[6] % 2 == 1,
    })
}

/// The decimal digit `d`.
pub open spec fn digit_chars(d: nat) -> Seq<char> {
    if d == 0 {
        "0"@
    } else if d == 1 {
        "1"@
    } else if d == 2 {
        "2"@
    } else if d == 3 {
        "3"@
    } else if d == 4 {
        "4"@
    } else if d == 5 {
        "5"@
    } else if d == 6 {
        "6"@
    } else if d == 7 {
        "7"@
    } else if d == 8 {
        "8"@
    } else {
        "9"@
    }
}

/// The decimal numeral of `n`.
pub open spec fn decimal(n: nat) -> Seq<char>
    decreases n,
{
    if n < 10 { digit_chars(n) } else { decimal(n / 10) + digit_chars(n % 10) }
}

/// The summary of an image's sizes and mapper.
pub open spec fn info_text(rom: &Rom) -> Seq<char> {
    "PRG ROM Size: "@ + decimal(rom.prg_rom@.len()) + "\nCHR ROM Size: "@ + decimal(rom.chr_rom@.len())
        + "\nPRG RAM Size: "@ + decimal(rom.prg_ram_size as nat) + "\nCHR RAM Size: "@ + decimal(
        rom.chr_ram_size as nat,
    ) + "\nMapper:       "@ + decimal(rom.mapper as nat)
}

fn digit_str(d: u64) -> (r: &'static str)
    requires
        d < 10,
    ensures
        r@ == digit_chars(d as nat),
{
    match d {
        0 => "0",
        1 => "1",
        2 => "2",
        3 => "3",
        4 => "4",
        5 => "5",
        6 => "6",
        7 => "7",
        8 => "8",
        _ => "9",
    }
}

pub(crate) fn append_decimal(s: &mut String, n: u64)
    ensures
        final(s)@ == old(s)@ + decimal(n as nat),
    decreases n,
{
    if n >= 10 {
        append_decimal(s, n / 10);
    }
    s.append(digit_str(n % 10));
    assert(final(s)@ =~= old(s)@ + decimal(n as nat));
}

/// A summary of the image: PRG-ROM, CHR-ROM, PRG-RAM and CHR-RAM sizes and the
/// mapper number, one per line.
pub fn rom_get_info(rom: &Rom) -> (r: String)
    ensures
        r@ == info_text(rom),
{
    let mut s = String::new();
    s.append("PRG ROM Size: ");
    append_decimal(&mut s, rom.prg_rom.len() as u64);
    s.append("\nCHR ROM Size: ");
    append_decimal(&mut s, rom.chr_rom.len() as u64);
    s.append("\nPRG RAM Size: ");
    append_decimal(&mut s, rom.prg_ram_size as u64);
    s.append("\nCHR RAM Size: ");
    append_decimal(&mut s, rom.chr_ram_size as u64);
    s.append("\nMapper:       ");
    append_decimal(&mut s, rom.mapper as u64);
    assert(s@ =~= info_text(rom));
    s
}

} // verus!
