//! The 6502 interpreter. Each instruction is stated as a spec function over the
//! CPU state and an abstract bus, and the interpreter is proved to follow it.
use vstd::prelude::*;
use crate::opcodes::{AddrMode, Instruction, decode, opcode_info};

verus! {

pub const VEC_NMI: u16 = 0xFFFA;
pub const VEC_RESET: u16 = 0xFFFC;
pub const VEC_IRQ: u16 = 0xFFFE;
pub const STACK_BASE: u16 = 0x0100;
pub const NUM_CYCLES_INT: u32 = 7;

/// A bus that the CPU reads and writes. Its behaviour is given over its view by
/// three spec functions: what a read returns, and the view after a read or a write.
pub trait CpuBus: View + Sized {
    /// The part of the bus's state that no CPU access can change.
    type Pinned;

    spec fn pinned(&self) -> Self::Pinned;

    spec fn spec_read(m: Self::V, addr: u16) -> u8;

    spec fn spec_after_read(m: Self::V, addr: u16) -> Self::V;

    spec fn spec_after_write(m: Self::V, addr: u16, data: u8) -> Self::V;

    fn cpu_read(&mut self, addr: u16) -> (r: u8)
        ensures
            r == Self::spec_read(old(self)@, addr),
            final(self)@ == Self::spec_after_read(old(self)@, addr),
            final(self).pinned() == old(self).pinned(),
    ;

    fn cpu_write(&mut self, addr: u16, data: u8)
        ensures
            final(self)@ == Self::spec_after_write(old(self)@, addr, data),
            final(self).pinned() == old(self).pinned(),
    ;
}

/// The 6502 registers, flags, interrupt inputs and cycle bookkeeping.
#[derive(Clone, Copy, Debug)]
pub struct Cpu {
    pub a: u8,
    pub x: u8,
    pub y: u8,
    pub s: u8,
    pub pc: u16,
    pub n: bool,
    pub v: bool,
    pub d: bool,
    pub i: bool,
    pub z: bool,
    pub c: bool,
    /// RESET input: while set, every instruction boundary performs a reset.
    pub reset: bool,
    /// IRQ input, level-sensitive.
    pub irq: bool,
    /// NMI input, edge-triggered.
    pub nmi: bool,
    /// The NMI input as sampled on the previous cycle.
    pub nmi_prev: bool,
    /// A rising NMI edge seen and not yet serviced.
    pub nmi_latch: bool,
    /// Cycles run since construction.
    pub cycles: u64,
    /// Cycles left in the current instruction.
    pub ins_cycles: u32,
    /// Set when an undocumented opcode was fetched: its address and the opcode.
    pub fault: Option<(u16, u8)>,
}

// ---------------------------------------------------------------- arithmetic

pub open spec fn inc16(x: u16) -> u16 {
    ((x + 1) % 0x10000) as u16
}

pub open spec fn inc8(x: u8) -> u8 {
    ((x + 1) % 0x100) as u8
}

pub open spec fn dec8(x: u8) -> u8 {
    ((x + 0xFF) % 0x100) as u8
}

pub open spec fn word(low: u8, high: u8) -> u16 {
    (high * 0x100 + low) as u16
}

pub open spec fn inc64(x: u64) -> u64 {
    if x == u64::MAX { 0 } else { (x + 1) as u64 }
}

fn wrap_inc16(x: u16) -> (r: u16)
    ensures
        r == inc16(x),
{
    if x == 0xFFFF { 0 } else { x + 1 }
}

fn wrap_inc8(x: u8) -> (r: u8)
    ensures
        r == inc8(x),
{
    if x == 0xFF { 0 } else { x + 1 }
}

fn wrap_dec8(x: u8) -> (r: u8)
    ensures
        r == dec8(x),
{
    if x == 0 { 0xFF } else { x - 1 }
}

fn sub_wrap8(r: u8, m: u8) -> (x: u8)
    ensures
        x == sub8(r, m),
{
    ((r as u16 + 256 - m as u16) % 256) as u8
}

fn wrap_inc64(x: u64) -> (r: u64)
    ensures
        r == inc64(x),
{
    if x == u64::MAX { 0 } else { x + 1 }
}

/// The 16-bit word of a low and a high byte.
pub fn u8_to_u16(low: u8, high: u8) -> (r: u16)
    ensures
        r == word(low, high),
        r as int == high as int * 256 + low as int,
{
    (high as u16) * 256 + (low as u16)
}

/// The address of stack slot `s`.
pub open spec fn stack_addr(s: u8) -> u16 {
    (0x100 + s) as u16
}

/// The result of ADC on `a`, `m` and the carry: sum, carry out, signed overflow.
pub open spec fn adc_spec(a: u8, m: u8, c: bool) -> (u8, bool, bool) {
    let sum = a + m + (if c { 1int } else { 0int });
    let r = (sum % 256) as u8;
    (r, sum > 255, (a >= 128) == (m >= 128) && (r >= 128) != (a >= 128))
}

/// SBC is ADC of the one's complement of the operand.
pub open spec fn sbc_spec(a: u8, m: u8, c: bool) -> (u8, bool, bool) {
    adc_spec(a, (255 - m) as u8, c)
}

/// The status byte: N V 1 B D I Z C, with B clear.
pub open spec fn flags_byte(n: bool, v: bool, d: bool, i: bool, z: bool, c: bool) -> u8 {
    ((if n { 128int } else { 0 }) + (if v { 64int } else { 0 }) + 32 + (if d { 8int } else { 0 })
        + (if i { 4int } else { 0 }) + (if z { 2int } else { 0 }) + (if c { 1int } else { 0 })) as u8
}

/// The wrapped difference `r - m`, as CMP computes it.
pub open spec fn sub8(r: u8, m: u8) -> u8 {
    ((r + 256 - m) % 256) as u8
}

/// The target of a branch at `pc` (the address after the operand) with offset `off`.
pub open spec fn branch_target(pc: u16, off: u8) -> u16 {
    if off < 128 {
        ((pc + off) % 0x10000) as u16
    } else {
        ((pc + off + 0xFF00) % 0x10000) as u16
    }
}

/// Where JMP indirect fetches the high byte of its target: the pointer's page is kept.
pub open spec fn jmp_ind_high_addr(ptr: u16) -> u16 {
    ((ptr / 256) * 256 + (ptr % 256 + 1) % 256) as u16
}

/// The documented length in cycles of an instruction, given whether its indexed
/// address crossed a page and, for a branch, whether it was taken.
pub open spec fn documented_cycles(ins: Instruction, mode: AddrMode, crossed: bool, taken: bool) -> u32 {
    let p: u32 = if crossed { 1 } else { 0 };
    match ins {
        Instruction::BCC | Instruction::BCS | Instruction::BEQ | Instruction::BMI
        | Instruction::BNE | Instruction::BPL | Instruction::BVC | Instruction::BVS => {
            if !taken { 2 } else if crossed { 4 } else { 3 }
        },
        Instruction::JMP => if mode == AddrMode::IND { 5 } else { 3 },
        Instruction::JSR | Instruction::RTS | Instruction::RTI => 6,
        Instruction::BRK => 7,
        Instruction::PHA | Instruction::PHP => 3,
        Instruction::PLA | Instruction::PLP => 4,
        Instruction::ASL | Instruction::LSR | Instruction::ROL | Instruction::ROR
        | Instruction::INC | Instruction::DEC => match mode {
            AddrMode::ZP => 5,
            AddrMode::ZPX => 6,
            AddrMode::ABS => 6,
            AddrMode::ABSX => 7,
            _ => 2,
        },
        Instruction::STA | Instruction::STX | Instruction::STY => match mode {
            AddrMode::ZP => 3,
            AddrMode::ZPX | AddrMode::ZPY | AddrMode::ABS => 4,
            AddrMode::ABSX | AddrMode::ABSY => 5,
            _ => 6,
        },
        _ => match mode {
            AddrMode::IMM => 2,
            AddrMode::ZP => 3,
            AddrMode::ZPX | AddrMode::ZPY | AddrMode::ABS => 4,
            AddrMode::ABSX | AddrMode::ABSY => (4 + p) as u32,
            AddrMode::INDX => 6,
            AddrMode::INDY => (5 + p) as u32,
            _ => 2,
        },
    }
}

pub open spec fn is_branch(ins: Instruction) -> bool {
    ins == Instruction::BCC || ins == Instruction::BCS || ins == Instruction::BEQ
        || ins == Instruction::BMI || ins == Instruction::BNE || ins == Instruction::BPL
        || ins == Instruction::BVC || ins == Instruction::BVS
}

pub open spec fn is_rmw(ins: Instruction) -> bool {
    ins == Instruction::ASL || ins == Instruction::LSR || ins == Instruction::ROL
        || ins == Instruction::ROR || ins == Instruction::INC || ins == Instruction::DEC
}

pub open spec fn is_store(ins: Instruction) -> bool {
    ins == Instruction::STA || ins == Instruction::STX || ins == Instruction::STY
}

/// The operation reads an operand (loads, arithmetic, logic, compares, BIT).
pub open spec fn is_read(ins: Instruction) -> bool {
    ins == Instruction::ADC || ins == Instruction::AND || ins == Instruction::BIT
        || ins == Instruction::CMP || ins == Instruction::CPX || ins == Instruction::CPY
        || ins == Instruction::EOR || ins == Instruction::LDA || ins == Instruction::LDX
        || ins == Instruction::LDY || ins == Instruction::ORA || ins == Instruction::SBC
}

/// Computes the documented cycle count.
pub fn instr_cycles(ins: Instruction, mode: AddrMode, crossed: bool, taken: bool) -> (r: u32)
    ensures
        r == documented_cycles(ins, mode, crossed, taken),
{
    let p: u32 = if crossed { 1 } else { 0 };
    match ins {
        Instruction::BCC | Instruction::BCS | Instruction::BEQ | Instruction::BMI
        | Instruction::BNE | Instruction::BPL | Instruction::BVC | Instruction::BVS => {
            if !taken { 2 } else if crossed { 4 } else { 3 }
        },
        Instruction::JMP => if mode == AddrMode::IND { 5 } else { 3 },
        Instruction::JSR | Instruction::RTS | Instruction::RTI => 6,
        Instruction::BRK => 7,
        Instruction::PHA | Instruction::PHP => 3,
        Instruction::PLA | Instruction::PLP => 4,
        Instruction::ASL | Instruction::LSR | Instruction::ROL | Instruction::ROR
        | Instruction::INC | Instruction::DEC => match mode {
            AddrMode::ZP => 5,
            AddrMode::ZPX => 6,
            AddrMode::ABS => 6,
            AddrMode::ABSX => 7,
            _ => 2,
        },
        Instruction::STA | Instruction::STX | Instruction::STY => match mode {
            AddrMode::ZP => 3,
            AddrMode::ZPX | AddrMode::ZPY | AddrMode::ABS => 4,
            AddrMode::ABSX | AddrMode::ABSY => 5,
            _ => 6,
        },
        _ => match mode {
            AddrMode::IMM => 2,
            AddrMode::ZP => 3,
            AddrMode::ZPX | AddrMode::ZPY | AddrMode::ABS => 4,
            AddrMode::ABSX | AddrMode::ABSY => 4 + p,
            AddrMode::INDX => 6,
            AddrMode::INDY => 5 + p,
            _ => 2,
        },
    }
}

impl Cpu {
    /// N and Z set from a result.
    pub open spec fn with_zn(self, val: u8) -> Cpu {
        Cpu { z: val == 0, n: val >= 128, ..self }
    }

    /// The status byte of the flags, bit 5 set and bit 4 clear.
    pub open spec fn flags(self) -> u8 {
        flags_byte(self.n, self.v, self.d, self.i, self.z, self.c)
    }

    /// The flags loaded from a status byte; bits 4 and 5 are ignored.
    pub open spec fn with_flags(self, f: u8) -> Cpu {
        Cpu {
            n: f >= 128,
            v: f % 128 >= 64,
            d: f % 16 >= 8,
            i: f % 8 >= 4,
            z: f % 4 >= 2,
            c: f % 2 == 1,
            ..self
        }
    }

    /// The effect of an instruction that reads the operand `m`.
    pub open spec fn spec_read_op(self, ins: Instruction, m: u8) -> Cpu {
        match ins {
            Instruction::ADC => {
                let (r, c, v) = adc_spec(self.a, m, self.c);
                Cpu { a: r, c: c, v: v, ..self }.with_zn(r)
            },
            Instruction::SBC => {
                let (r, c, v) = sbc_spec(self.a, m, self.c);
                Cpu { a: r, c: c, v: v, ..self }.with_zn(r)
            },
            Instruction::AND => Cpu { a: self.a & m, ..self }.with_zn(self.a & m),
            Instruction::ORA => Cpu { a: self.a | m, ..self }.with_zn(self.a | m),
            Instruction::EOR => Cpu { a: self.a ^ m, ..self }.with_zn(self.a ^ m),
            Instruction::BIT => Cpu { n: m >= 128, v: m % 128 >= 64, z: self.a & m == 0, ..self },
            Instruction::CMP => Cpu { c: self.a >= m, ..self }.with_zn(sub8(self.a, m)),
            Instruction::CPX => Cpu { c: self.x >= m, ..self }.with_zn(sub8(self.x, m)),
            Instruction::CPY => Cpu { c: self.y >= m, ..self }.with_zn(sub8(self.y, m)),
            Instruction::LDA => Cpu { a: m, ..self }.with_zn(m),
            Instruction::LDX => Cpu { x: m, ..self }.with_zn(m),
            Instruction::LDY => Cpu { y: m, ..self }.with_zn(m),
            _ => self,
        }
    }

    /// The effect of a read-modify-write instruction on the value `m`, and its result.
    pub open spec fn spec_rmw_op(self, ins: Instruction, m: u8) -> (Cpu, u8) {
        match ins {
            Instruction::ASL => {
                let r = ((m * 2) % 256) as u8;
                (Cpu { c: m >= 128, ..self }.with_zn(r), r)
            },
            Instruction::LSR => {
                let r = m / 2;
                (Cpu { c: m % 2 == 1, ..self }.with_zn(r), r)
            },
            Instruction::ROL => {
                let r = ((m * 2) % 256 + (if self.c { 1int } else { 0 })) as u8;
                (Cpu { c: m >= 128, ..self }.with_zn(r), r)
            },
            Instruction::ROR => {
                let r = (m / 2 + (if self.c { 128int } else { 0 })) as u8;
                (Cpu { c: m % 2 == 1, ..self }.with_zn(r), r)
            },
            Instruction::INC => (self.with_zn(inc8(m)), inc8(m)),
            Instruction::DEC => (self.with_zn(dec8(m)), dec8(m)),
            _ => (self, m),
        }
    }

    /// The effect of a one-byte instruction that touches registers only.
    pub open spec fn spec_implied_op(self, ins: Instruction) -> Cpu {
        match ins {
            Instruction::CLC => Cpu { c: false, ..self },
            Instruction::CLD => Cpu { d: false, ..self },
            Instruction::CLI => Cpu { i: false, ..self },
            Instruction::CLV => Cpu { v: false, ..self },
            Instruction::SEC => Cpu { c: true, ..self },
            Instruction::SED => Cpu { d: true, ..self },
            Instruction::SEI => Cpu { i: true, ..self },
            Instruction::DEX => Cpu { x: dec8(self.x), ..self }.with_zn(dec8(self.x)),
            Instruction::DEY => Cpu { y: dec8(self.y), ..self }.with_zn(dec8(self.y)),
            Instruction::INX => Cpu { x: inc8(self.x), ..self }.with_zn(inc8(self.x)),
            Instruction::INY => Cpu { y: inc8(self.y), ..self }.with_zn(inc8(self.y)),
            Instruction::TAX => Cpu { x: self.a, ..self }.with_zn(self.a),
            Instruction::TAY => Cpu { y: self.a, ..self }.with_zn(self.a),
            Instruction::TSX => Cpu { x: self.s, ..self }.with_zn(self.s),
            Instruction::TXA => Cpu { a: self.x, ..self }.with_zn(self.x),
            Instruction::TXS => Cpu { s: self.x, ..self },
            Instruction::TYA => Cpu { a: self.y, ..self }.with_zn(self.y),
            _ => self,
        }
    }

    /// Whether a branch instruction's condition holds.
    pub open spec fn spec_taken(self, ins: Instruction) -> bool {
        match ins {
            Instruction::BCC => !self.c,
            Instruction::BCS => self.c,
            Instruction::BNE => !self.z,
            Instruction::BEQ => self.z,
            Instruction::BPL => !self.n,
            Instruction::BMI => self.n,
            Instruction::BVC => !self.v,
            Instruction::BVS => self.v,
            _ => false,
        }
    }

    /// The register that a store instruction writes.
    pub open spec fn spec_store_val(self, ins: Instruction) -> u8 {
        match ins {
            Instruction::STX => self.x,
            Instruction::STY => self.y,
            _ => self.a,
        }
    }

    /// The interrupt inputs, their samples and the cycle bookkeeping are equal.
    pub open spec fn pins_kept(a: Cpu, b: Cpu) -> bool {
        &&& a.nmi == b.nmi && a.nmi_prev == b.nmi_prev && a.nmi_latch == b.nmi_latch
        &&& a.irq == b.irq && a.reset == b.reset && a.fault == b.fault
        &&& a.cycles == b.cycles && a.ins_cycles == b.ins_cycles
    }

    /// Reads the byte at PC and advances PC.
    pub open spec fn spec_fetch<B: CpuBus>(self, bus: B::V) -> (u8, Cpu, B::V) {
        (B::spec_read(bus, self.pc), Cpu { pc: inc16(self.pc), ..self }, B::spec_after_read(bus, self.pc))
    }

    pub open spec fn spec_push<B: CpuBus>(self, bus: B::V, val: u8) -> (Cpu, B::V) {
        (Cpu { s: dec8(self.s), ..self }, B::spec_after_write(bus, stack_addr(self.s), val))
    }

    pub open spec fn spec_pull<B: CpuBus>(self, bus: B::V) -> (u8, Cpu, B::V) {
        let s = inc8(self.s);
        (B::spec_read(bus, stack_addr(s)), Cpu { s: s, ..self }, B::spec_after_read(bus, stack_addr(s)))
    }

    /// The effective address of a memory operand, whether indexing crossed a page,
    /// and the state after the operand bytes and pointers were read.
    pub open spec fn spec_operand_addr<B: CpuBus>(self, bus: B::V, mode: AddrMode) -> (u16, bool, Cpu, B::V) {
        let (b0, c1, b1) = self.spec_fetch::<B>(bus);
        match mode {
            AddrMode::ZP => (b0 as u16, false, c1, b1),
            AddrMode::ZPX => (((b0 + self.x) % 256) as u16, false, c1, b1),
            AddrMode::ZPY => (((b0 + self.y) % 256) as u16, false, c1, b1),
            AddrMode::ABS | AddrMode::ABSX | AddrMode::ABSY => {
                let (hi, c2, b2) = c1.spec_fetch::<B>(b1);
                let idx: u8 = if mode == AddrMode::ABSX { self.x } else if mode == AddrMode::ABSY { self.y } else { 0 };
                (((word(b0, hi) + idx) % 0x10000) as u16, b0 + idx > 255, c2, b2)
            },
            AddrMode::INDX => {
                let p = ((b0 + self.x) % 256) as u16;
                let q = ((b0 + self.x + 1) % 256) as u16;
                let lo = B::spec_read(b1, p);
                let b2 = B::spec_after_read(b1, p);
                let hi = B::spec_read(b2, q);
                (word(lo, hi), false, c1, B::spec_after_read(b2, q))
            },
            AddrMode::INDY => {
                let q = ((b0 + 1) % 256) as u16;
                let lo = B::spec_read(b1, b0 as u16);
                let b2 = B::spec_after_read(b1, b0 as u16);
                let hi = B::spec_read(b2, q);
                (((word(lo, hi) + self.y) % 0x10000) as u16, lo + self.y > 255, c1, B::spec_after_read(b2, q))
            },
            _ => (0, false, self, bus),
        }
    }

    /// The interrupt sequence: push PC and the status (with bit 4 for BRK), load PC
    /// from the vector, set I.
    pub open spec fn spec_interrupt<B: CpuBus>(self, bus: B::V, vec: u16, brk: bool) -> (Cpu, B::V) {
        let (c1, b1) = self.spec_push::<B>(bus, (self.pc / 256) as u8);
        let (c2, b2) = c1.spec_push::<B>(b1, (self.pc % 256) as u8);
        let f = (self.flags() + (if brk { 16int } else { 0 })) as u8;
        let (c3, b3) = c2.spec_push::<B>(b2, f);
        let lo = B::spec_read(b3, vec);
        let b4 = B::spec_after_read(b3, vec);
        let hi = B::spec_read(b4, inc16(vec));
        (Cpu { pc: word(lo, hi), i: true, ..c3 }, B::spec_after_read(b4, inc16(vec)))
    }

    /// One decoded instruction, after its opcode was fetched: the state after it and
    /// whether an indexed address or a taken branch crossed a page.
    pub open spec fn spec_execute<B: CpuBus>(self, bus: B::V, ins: Instruction, mode: AddrMode) -> (Cpu, B::V, bool) {
        if is_read(ins) {
            self.spec_read_instr::<B>(bus, ins, mode)
        } else if is_rmw(ins) {
            self.spec_rmw_instr::<B>(bus, ins, mode)
        } else if is_store(ins) {
            self.spec_store_instr::<B>(bus, ins, mode)
        } else if is_branch(ins) {
            self.spec_branch_instr::<B>(bus, ins, mode)
        } else {
            self.spec_control_instr::<B>(bus, ins, mode)
        }
    }

    /// An instruction that reads its operand.
    #[verifier::opaque]
    pub open spec fn spec_read_instr<B: CpuBus>(self, bus: B::V, ins: Instruction, mode: AddrMode) -> (Cpu, B::V, bool) {
        if mode == AddrMode::IMM {
            let (m, c1, b1) = self.spec_fetch::<B>(bus);
            (c1.spec_read_op(ins, m), b1, false)
        } else {
            let (addr, cr, c1, b1) = self.spec_operand_addr::<B>(bus, mode);
            (c1.spec_read_op(ins, B::spec_read(b1, addr)), B::spec_after_read(b1, addr), cr)
        }
    }

    /// A read-modify-write instruction, on A or on memory.
    #[verifier::opaque]
    pub open spec fn spec_rmw_instr<B: CpuBus>(self, bus: B::V, ins: Instruction, mode: AddrMode) -> (Cpu, B::V, bool) {
        if mode == AddrMode::IMP {
            let (c1, r) = self.spec_rmw_op(ins, self.a);
            (Cpu { a: r, ..c1 }, bus, false)
        } else {
            let (addr, cr, c1, b1) = self.spec_operand_addr::<B>(bus, mode);
            let m = B::spec_read(b1, addr);
            let b2 = B::spec_after_write(B::spec_after_read(b1, addr), addr, m);
            let (c2, r) = c1.spec_rmw_op(ins, m);
            (c2, B::spec_after_write(b2, addr, r), cr)
        }
    }

    /// A store.
    #[verifier::opaque]
    pub open spec fn spec_store_instr<B: CpuBus>(self, bus: B::V, ins: Instruction, mode: AddrMode) -> (Cpu, B::V, bool) {
        let (addr, cr, c1, b1) = self.spec_operand_addr::<B>(bus, mode);
        (c1, B::spec_after_write(b1, addr, self.spec_store_val(ins)), cr)
    }

    /// A conditional branch.
    #[verifier::opaque]
    pub open spec fn spec_branch_instr<B: CpuBus>(self, bus: B::V, ins: Instruction, mode: AddrMode) -> (Cpu, B::V, bool) {
        let (off, c1, b1) = self.spec_fetch::<B>(bus);
        if self.spec_taken(ins) {
            let t = branch_target(c1.pc, off);
            (Cpu { pc: t, ..c1 }, b1, t / 256 != c1.pc / 256)
        } else {
            (c1, b1, false)
        }
    }

    /// Jumps, calls, returns, BRK, stack operations and register-only instructions.
    #[verifier::opaque]
    pub open spec fn spec_control_instr<B: CpuBus>(self, bus: B::V, ins: Instruction, mode: AddrMode) -> (Cpu, B::V, bool) {
        match ins {
            Instruction::JMP => self.spec_jmp::<B>(bus, mode),
            Instruction::JSR => self.spec_jsr::<B>(bus, mode),
            Instruction::RTS => self.spec_rts::<B>(bus, mode),
            Instruction::RTI => self.spec_rti::<B>(bus, mode),
            Instruction::BRK => self.spec_brk::<B>(bus, mode),
            Instruction::PHA => self.spec_pha::<B>(bus, mode),
            Instruction::PHP => self.spec_php::<B>(bus, mode),
            Instruction::PLA => self.spec_pla::<B>(bus, mode),
            Instruction::PLP => self.spec_plp::<B>(bus, mode),
            _ => (self.spec_implied_op(ins), bus, false),
        }
    }

    #[verifier::opaque]
    pub open spec fn spec_jmp<B: CpuBus>(self, bus: B::V, mode: AddrMode) -> (Cpu, B::V, bool) {
        let (lo, c1, b1) = self.spec_fetch::<B>(bus);
        let (hi, c2, b2) = c1.spec_fetch::<B>(b1);
        if mode == AddrMode::IND {
            let ptr = word(lo, hi);
            let t_lo = B::spec_read(b2, ptr);
            let b3 = B::spec_after_read(b2, ptr);
            let t_hi = B::spec_read(b3, jmp_ind_high_addr(ptr));
            (Cpu { pc: word(t_lo, t_hi), ..c2 }, B::spec_after_read(b3, jmp_ind_high_addr(ptr)), false)
        } else {
            (Cpu { pc: word(lo, hi), ..c2 }, b2, false)
        }
    }

    #[verifier::opaque]
    pub open spec fn spec_jsr<B: CpuBus>(self, bus: B::V, mode: AddrMode) -> (Cpu, B::V, bool) {
        let (lo, c1, b1) = self.spec_fetch::<B>(bus);
        let (c2, b2) = c1.spec_push::<B>(b1, (c1.pc / 256) as u8);
        let (c3, b3) = c2.spec_push::<B>(b2, (c1.pc % 256) as u8);
        let hi = B::spec_read(b3, c3.pc);
        (Cpu { pc: word(lo, hi), ..c3 }, B::spec_after_read(b3, c3.pc), false)
    }

    #[verifier::opaque]
    pub open spec fn spec_rts<B: CpuBus>(self, bus: B::V, mode: AddrMode) -> (Cpu, B::V, bool) {
        let (lo, c1, b1) = self.spec_pull::<B>(bus);
        let (hi, c2, b2) = c1.spec_pull::<B>(b1);
        (Cpu { pc: inc16(word(lo, hi)), ..c2 }, b2, false)
    }

    #[verifier::opaque]
    pub open spec fn spec_rti<B: CpuBus>(self, bus: B::V, mode: AddrMode) -> (Cpu, B::V, bool) {
        let (f, c1, b1) = self.spec_pull::<B>(bus);
        let (lo, c2, b2) = c1.spec_pull::<B>(b1);
        let (hi, c3, b3) = c2.spec_pull::<B>(b2);
        (Cpu { pc: word(lo, hi), ..c3.with_flags(f) }, b3, false)
    }

    #[verifier::opaque]
    pub open spec fn spec_brk<B: CpuBus>(self, bus: B::V, mode: AddrMode) -> (Cpu, B::V, bool) {
        let (c, b) = Cpu { pc: inc16(self.pc), ..self }.spec_interrupt::<B>(bus, VEC_IRQ, true);
        (c, b, false)
    }

    #[verifier::opaque]
    pub open spec fn spec_pha<B: CpuBus>(self, bus: B::V, mode: AddrMode) -> (Cpu, B::V, bool) {
        let (c, b) = self.spec_push::<B>(bus, self.a);
        (c, b, false)
    }

    #[verifier::opaque]
    pub open spec fn spec_php<B: CpuBus>(self, bus: B::V, mode: AddrMode) -> (Cpu, B::V, bool) {
        let (c, b) = self.spec_push::<B>(bus, (self.flags() + 16) as u8);
        (c, b, false)
    }

    #[verifier::opaque]
    pub open spec fn spec_pla<B: CpuBus>(self, bus: B::V, mode: AddrMode) -> (Cpu, B::V, bool) {
        let (m, c1, b1) = self.spec_pull::<B>(bus);
        (Cpu { a: m, ..c1 }.with_zn(m), b1, false)
    }

    #[verifier::opaque]
    pub open spec fn spec_plp<B: CpuBus>(self, bus: B::V, mode: AddrMode) -> (Cpu, B::V, bool) {
        let (m, c1, b1) = self.spec_pull::<B>(bus);
        (c1.with_flags(m), b1, false)
    }

    /// The inputs as sampled at the start of a cycle: a rising NMI edge is latched.
    pub open spec fn spec_sample(self) -> Cpu {
        Cpu { nmi_latch: self.nmi_latch || (self.nmi && !self.nmi_prev), nmi_prev: self.nmi, ..self }
    }

    /// The work done at an instruction boundary: RESET, then a latched NMI, then an
    /// IRQ when I is clear, else one instruction. Gives the state after it and its
    /// length in cycles. A CPU that fetched an undocumented opcode is halted.
    #[verifier::opaque]
    pub open spec fn spec_boundary<B: CpuBus>(self, bus: B::V) -> (Cpu, B::V, u32) {
        if self.fault is Some {
            (self, bus, 1)
        } else if self.reset {
            let (c, b) = self.spec_interrupt::<B>(bus, VEC_RESET, false);
            (c, b, NUM_CYCLES_INT)
        } else if self.nmi_latch {
            let (c, b) = Cpu { nmi_latch: false, ..self }.spec_interrupt::<B>(bus, VEC_NMI, false);
            (c, b, NUM_CYCLES_INT)
        } else if self.irq && !self.i {
            let (c, b) = self.spec_interrupt::<B>(bus, VEC_IRQ, false);
            (c, b, NUM_CYCLES_INT)
        } else {
            let (op, c1, b1) = self.spec_fetch::<B>(bus);
            match opcode_info(op) {
                None => (Cpu { fault: Some((self.pc, op)), ..c1 }, b1, 1),
                Some((ins, mode)) => {
                    let (c2, b2, cr) = c1.spec_execute::<B>(b1, ins, mode);
                    (c2, b2, documented_cycles(ins, mode, cr, self.spec_taken(ins)))
                },
            }
        }
    }

    /// One cycle: sample the inputs; at an instruction boundary do the boundary's
    /// work and load its length; count the cycle.
    pub open spec fn spec_tick<B: CpuBus>(self, bus: B::V) -> (Cpu, B::V) {
        let c0 = self.spec_sample();
        if c0.ins_cycles == 0 {
            let (c1, b1, n) = c0.spec_boundary::<B>(bus);
            (Cpu { cycles: inc64(c1.cycles), ins_cycles: (n - 1) as u32, ..c1 }, b1)
        } else {
            (Cpu { cycles: inc64(c0.cycles), ins_cycles: (c0.ins_cycles - 1) as u32, ..c0 }, bus)
        }
    }
}

impl Cpu {
    /// A CPU with every register, flag and input clear, before its RESET.
    pub fn new() -> (r: Cpu)
        ensures
            r.a == 0 && r.x == 0 && r.y == 0 && r.s == 0 && r.pc == 0,
            !r.n && !r.v && !r.d && !r.i && !r.z && !r.c,
            !r.reset && !r.irq && !r.nmi && !r.nmi_prev && !r.nmi_latch,
            r.cycles == 0 && r.ins_cycles == 0 && r.fault is None,
    {
        Cpu {
            a: 0,
            x: 0,
            y: 0,
            s: 0,
            pc: 0,
            n: false,
            v: false,
            d: false,
            i: false,
            z: false,
            c: false,
            reset: false,
            irq: false,
            nmi: false,
            nmi_prev: false,
            nmi_latch: false,
            cycles: 0,
            ins_cycles: 0,
            fault: None,
        }
    }

    /// Cycles run since construction.
    pub fn cycles(&self) -> (r: u64)
        ensures
            r == self.cycles,
    {
        self.cycles
    }

    /// The undocumented opcode that halted the CPU, with its address.
    pub fn fault(&self) -> (r: Option<(u16, u8)>)
        ensures
            r == self.fault,
    {
        self.fault
    }

    fn set_zn(&mut self, val: u8)
        ensures
            Cpu::pins_kept(*old(self), *final(self)),
            *final(self) == old(self).with_zn(val),
    {
        self.z = val == 0;
        self.n = val >= 128;
    }

    /// The status byte: N V 1 B D I Z C with B clear.
    pub fn get_flags(&self) -> (r: u8)
        ensures
            r == self.flags(),
    {
        let mut f: u8 = 32;
        if self.n {
            f = f + 128;
        }
        if self.v {
            f = f + 64;
        }
        if self.d {
            f = f + 8;
        }
        if self.i {
            f = f + 4;
        }
        if self.z {
            f = f + 2;
        }
        if self.c {
            f = f + 1;
        }
        f
    }

    fn set_flags(&mut self, f: u8)
        ensures
            Cpu::pins_kept(*old(self), *final(self)),
            *final(self) == old(self).with_flags(f),
    {
        self.n = f >= 128;
        self.v = f % 128 >= 64;
        self.d = f % 16 >= 8;
        self.i = f % 8 >= 4;
        self.z = f % 4 >= 2;
        self.c = f % 2 == 1;
    }

    fn adc(&mut self, m: u8)
        ensures
            Cpu::pins_kept(*old(self), *final(self)),
            ({
                let (r, c, v) = adc_spec(old(self).a, m, old(self).c);
                *final(self) == Cpu { a: r, c: c, v: v, ..*old(self) }.with_zn(r)
            }),
    {
        let sum: u16 = self.a as u16 + m as u16 + if self.c { 1u16 } else { 0u16 };
        let r: u8 = (sum % 256) as u8;
        self.v = (self.a >= 128) == (m >= 128) && (r >= 128) != (self.a >= 128);
        self.c = sum > 255;
        self.a = r;
        self.set_zn(r);
    }

    fn read_op(&mut self, ins: Instruction, m: u8)
        ensures
            Cpu::pins_kept(*old(self), *final(self)),
            *final(self) == old(self).spec_read_op(ins, m),
    {
        match ins {
            Instruction::ADC | Instruction::SBC => self.arith_op(ins, m),
            Instruction::AND | Instruction::ORA | Instruction::EOR => self.logic_op(ins, m),
            Instruction::CMP | Instruction::CPX | Instruction::CPY => self.compare_op(ins, m),
            Instruction::BIT => {
                self.n = m >= 128;
                self.v = m % 128 >= 64;
                self.z = self.a & m == 0;
            },
            Instruction::LDA | Instruction::LDX | Instruction::LDY => self.load_op(ins, m),
            _ => {},
        }
    }

    fn arith_op(&mut self, ins: Instruction, m: u8)
        requires
            ins == Instruction::ADC || ins == Instruction::SBC,
        ensures
            Cpu::pins_kept(*old(self), *final(self)),
            *final(self) == old(self).spec_read_op(ins, m),
    {
        if ins == Instruction::ADC {
            self.adc(m);
        } else {
            self.adc(255 - m);
        }
    }

    fn logic_op(&mut self, ins: Instruction, m: u8)
        requires
            ins == Instruction::AND || ins == Instruction::ORA || ins == Instruction::EOR,
        ensures
            Cpu::pins_kept(*old(self), *final(self)),
            *final(self) == old(self).spec_read_op(ins, m),
    {
        let r = match ins {
            Instruction::AND => self.a & m,
            Instruction::ORA => self.a | m,
            _ => self.a ^ m,
        };
        self.a = r;
        self.set_zn(r);
    }

    fn compare_op(&mut self, ins: Instruction, m: u8)
        requires
            ins == Instruction::CMP || ins == Instruction::CPX || ins == Instruction::CPY,
        ensures
            Cpu::pins_kept(*old(self), *final(self)),
            *final(self) == old(self).spec_read_op(ins, m),
    {
        let r = match ins {
            Instruction::CMP => self.a,
            Instruction::CPX => self.x,
            _ => self.y,
        };
        self.c = r >= m;
        self.set_zn(sub_wrap8(r, m));
    }

    fn load_op(&mut self, ins: Instruction, m: u8)
        requires
            ins == Instruction::LDA || ins == Instruction::LDX || ins == Instruction::LDY,
        ensures
            Cpu::pins_kept(*old(self), *final(self)),
            *final(self) == old(self).spec_read_op(ins, m),
    {
        match ins {
            Instruction::LDA => self.a = m,
            Instruction::LDX => self.x = m,
            _ => self.y = m,
        }
        self.set_zn(m);
    }

    fn rmw_op(&mut self, ins: Instruction, m: u8) -> (r: u8)
        ensures
            Cpu::pins_kept(*old(self), *final(self)),
            (*final(self), r) == old(self).spec_rmw_op(ins, m),
    {
        match ins {
            Instruction::ASL => {
                let r: u8 = ((m as u16 * 2) % 256) as u8;
                self.c = m >= 128;
                self.set_zn(r);
                r
            },
            Instruction::LSR => {
                let r: u8 = m / 2;
                self.c = m % 2 == 1;
                self.set_zn(r);
                r
            },
            Instruction::ROL => {
                let r: u8 = ((m as u16 * 2) % 256 + if self.c { 1u16 } else { 0u16 }) as u8;
                self.c = m >= 128;
                self.set_zn(r);
                r
            },
            Instruction::ROR => {
                let r: u8 = m / 2 + if self.c { 128u8 } else { 0u8 };
                self.c = m % 2 == 1;
                self.set_zn(r);
                r
            },
            Instruction::INC => {
                let r = wrap_inc8(m);
                self.set_zn(r);
                r
            },
            Instruction::DEC => {
                let r = wrap_dec8(m);
                self.set_zn(r);
                r
            },
            _ => m,
        }
    }

    #[verifier::rlimit(40)]
    fn implied_op(&mut self, ins: Instruction)
        ensures
            Cpu::pins_kept(*old(self), *final(self)),
            *final(self) == old(self).spec_implied_op(ins),
    {
        match ins {
            Instruction::CLC => self.c = false,
            Instruction::CLD => self.d = false,
            Instruction::CLI => self.i = false,
            Instruction::CLV => self.v = false,
            Instruction::SEC => self.c = true,
            Instruction::SED => self.d = true,
            Instruction::SEI => self.i = true,
            Instruction::DEX => {
                self.x = wrap_dec8(self.x);
                self.set_zn(self.x);
            },
            Instruction::DEY => {
                self.y = wrap_dec8(self.y);
                self.set_zn(self.y);
            },
            Instruction::INX => {
                self.x = wrap_inc8(self.x);
                self.set_zn(self.x);
            },
            Instruction::INY => {
                self.y = wrap_inc8(self.y);
                self.set_zn(self.y);
            },
            Instruction::TAX => {
                self.x = self.a;
                self.set_zn(self.a);
            },
            Instruction::TAY => {
                self.y = self.a;
                self.set_zn(self.a);
            },
            Instruction::TSX => {
                self.x = self.s;
                self.set_zn(self.s);
            },
            Instruction::TXA => {
                self.a = self.x;
                self.set_zn(self.x);
            },
            Instruction::TXS => self.s = self.x,
            Instruction::TYA => {
                self.a = self.y;
                self.set_zn(self.y);
            },
            _ => {},
        }
    }

    fn taken(&self, ins: Instruction) -> (r: bool)
        ensures
            r == self.spec_taken(ins),
    {
        match ins {
            Instruction::BCC => !self.c,
            Instruction::BCS => self.c,
            Instruction::BNE => !self.z,
            Instruction::BEQ => self.z,
            Instruction::BPL => !self.n,
            Instruction::BMI => self.n,
            Instruction::BVC => !self.v,
            Instruction::BVS => self.v,
            _ => false,
        }
    }

    fn fetch<B: CpuBus>(&mut self, bus: &mut B) -> (r: u8)
        ensures
            final(bus).pinned() == old(bus).pinned(),
            Cpu::pins_kept(*old(self), *final(self)),
            (r, *final(self), final(bus)@) == old(self).spec_fetch::<B>(old(bus)@),
    {
        let pc = self.pc;
        let r = bus.cpu_read(pc);
        self.pc = wrap_inc16(pc);
        r
    }

    fn push<B: CpuBus>(&mut self, bus: &mut B, val: u8)
        ensures
            final(bus).pinned() == old(bus).pinned(),
            Cpu::pins_kept(*old(self), *final(self)),
            (*final(self), final(bus)@) == old(self).spec_push::<B>(old(bus)@, val),
    {
        bus.cpu_write(STACK_BASE + self.s as u16, val);
        self.s = wrap_dec8(self.s);
    }

    fn pull<B: CpuBus>(&mut self, bus: &mut B) -> (r: u8)
        ensures
            final(bus).pinned() == old(bus).pinned(),
            Cpu::pins_kept(*old(self), *final(self)),
            (r, *final(self), final(bus)@) == old(self).spec_pull::<B>(old(bus)@),
    {
        self.s = wrap_inc8(self.s);
        bus.cpu_read(STACK_BASE + self.s as u16)
    }

    fn operand_addr<B: CpuBus>(&mut self, bus: &mut B, mode: AddrMode) -> (r: (u16, bool))
        ensures
            final(bus).pinned() == old(bus).pinned(),
            Cpu::pins_kept(*old(self), *final(self)),
            (r.0, r.1, *final(self), final(bus)@) == old(self).spec_operand_addr::<B>(old(bus)@, mode),
    {
        match mode {
            AddrMode::ZP => {
                let b0 = self.fetch(bus);
                (b0 as u16, false)
            },
            AddrMode::ZPX => {
                let b0 = self.fetch(bus);
                (((b0 as u16 + self.x as u16) % 256), false)
            },
            AddrMode::ZPY => {
                let b0 = self.fetch(bus);
                (((b0 as u16 + self.y as u16) % 256), false)
            },
            AddrMode::ABS | AddrMode::ABSX | AddrMode::ABSY => {
                let idx: u8 = match mode {
                    AddrMode::ABSX => self.x,
                    AddrMode::ABSY => self.y,
                    _ => 0,
                };
                let lo = self.fetch(bus);
                let hi = self.fetch(bus);
                let base = u8_to_u16(lo, hi);
                (((base as u32 + idx as u32) % 0x10000) as u16, lo as u16 + idx as u16 > 255)
            },
            AddrMode::INDX => {
                let b0 = self.fetch(bus);
                let p: u16 = (b0 as u16 + self.x as u16) % 256;
                let q: u16 = (b0 as u16 + self.x as u16 + 1) % 256;
                let lo = bus.cpu_read(p);
                let hi = bus.cpu_read(q);
                (u8_to_u16(lo, hi), false)
            },
            AddrMode::INDY => {
                let b0 = self.fetch(bus);
                let q: u16 = (b0 as u16 + 1) % 256;
                let lo = bus.cpu_read(b0 as u16);
                let hi = bus.cpu_read(q);
                let base = u8_to_u16(lo, hi);
                (((base as u32 + self.y as u32) % 0x10000) as u16, lo as u16 + self.y as u16 > 255)
            },
            _ => (0, false),
        }
    }

    fn interrupt<B: CpuBus>(&mut self, bus: &mut B, vec: u16, brk: bool)
        requires
            vec < 0xFFFF,
        ensures
            final(bus).pinned() == old(bus).pinned(),
            Cpu::pins_kept(*old(self), *final(self)),
            (*final(self), final(bus)@) == old(self).spec_interrupt::<B>(old(bus)@, vec, brk),
    {
        let pc = self.pc;
        let f = self.get_flags();
        self.push(bus, (pc / 256) as u8);
        self.push(bus, (pc % 256) as u8);
        self.push(bus, if brk { f + 16 } else { f });
        let lo = bus.cpu_read(vec);
        let hi = bus.cpu_read(vec + 1);
        self.pc = u8_to_u16(lo, hi);
        self.i = true;
    }


    fn execute<B: CpuBus>(&mut self, bus: &mut B, ins: Instruction, mode: AddrMode) -> (cr: bool)
        ensures
            final(bus).pinned() == old(bus).pinned(),
            Cpu::pins_kept(*old(self), *final(self)),
            (*final(self), final(bus)@, cr) == old(self).spec_execute::<B>(old(bus)@, ins, mode),
    {
        if read_ins(ins) {
            self.read_instr(bus, ins, mode)
        } else if rmw_ins(ins) {
            self.rmw_instr(bus, ins, mode)
        } else if store_ins(ins) {
            self.store_instr(bus, ins, mode)
        } else if branch_ins(ins) {
            self.branch_instr(bus, ins, mode)
        } else {
            self.control_op(bus, ins, mode);
            false
        }
    }

    fn read_instr<B: CpuBus>(&mut self, bus: &mut B, ins: Instruction, mode: AddrMode) -> (cr: bool)
        requires
            is_read(ins),
        ensures
            final(bus).pinned() == old(bus).pinned(),
            Cpu::pins_kept(*old(self), *final(self)),
            (*final(self), final(bus)@, cr) == old(self).spec_read_instr::<B>(old(bus)@, ins, mode),
    {
        reveal(Cpu::spec_read_instr);
        if mode == AddrMode::IMM {
            let m = self.fetch(bus);
            self.read_op(ins, m);
            false
        } else {
            let (addr, cr) = self.operand_addr(bus, mode);
            let m = bus.cpu_read(addr);
            self.read_op(ins, m);
            cr
        }
    }

    fn rmw_instr<B: CpuBus>(&mut self, bus: &mut B, ins: Instruction, mode: AddrMode) -> (cr: bool)
        requires
            is_rmw(ins),
        ensures
            final(bus).pinned() == old(bus).pinned(),
            Cpu::pins_kept(*old(self), *final(self)),
            (*final(self), final(bus)@, cr) == old(self).spec_rmw_instr::<B>(old(bus)@, ins, mode),
    {
        reveal(Cpu::spec_rmw_instr);
        if mode == AddrMode::IMP {
            let r = self.rmw_op(ins, self.a);
            self.a = r;
            false
        } else {
            let (addr, cr) = self.operand_addr(bus, mode);
            let m = bus.cpu_read(addr);
            bus.cpu_write(addr, m);
            let r = self.rmw_op(ins, m);
            bus.cpu_write(addr, r);
            cr
        }
    }

    fn store_instr<B: CpuBus>(&mut self, bus: &mut B, ins: Instruction, mode: AddrMode) -> (cr: bool)
        requires
            is_store(ins),
        ensures
            final(bus).pinned() == old(bus).pinned(),
            Cpu::pins_kept(*old(self), *final(self)),
            (*final(self), final(bus)@, cr) == old(self).spec_store_instr::<B>(old(bus)@, ins, mode),
    {
        reveal(Cpu::spec_store_instr);
        let val = match ins {
            Instruction::STX => self.x,
            Instruction::STY => self.y,
            _ => self.a,
        };
        let (addr, cr) = self.operand_addr(bus, mode);
        bus.cpu_write(addr, val);
        cr
    }

    fn branch_instr<B: CpuBus>(&mut self, bus: &mut B, ins: Instruction, mode: AddrMode) -> (cr: bool)
        requires
            is_branch(ins),
        ensures
            final(bus).pinned() == old(bus).pinned(),
            Cpu::pins_kept(*old(self), *final(self)),
            (*final(self), final(bus)@, cr) == old(self).spec_branch_instr::<B>(old(bus)@, ins, mode),
    {
        reveal(Cpu::spec_branch_instr);
        let t = self.taken(ins);
        let off = self.fetch(bus);
        if t {
            let pc = self.pc;
            let target = branch_to(pc, off);
            self.pc = target;
            target / 256 != pc / 256
        } else {
            false
        }
    }

    #[verifier::rlimit(40)]
    fn control_op<B: CpuBus>(&mut self, bus: &mut B, ins: Instruction, mode: AddrMode)
        requires
            !is_read(ins) && !is_rmw(ins) && !is_store(ins) && !is_branch(ins),
        ensures
            final(bus).pinned() == old(bus).pinned(),
            Cpu::pins_kept(*old(self), *final(self)),
            (*final(self), final(bus)@, false) == old(self).spec_execute::<B>(old(bus)@, ins, mode),
    {
        reveal(Cpu::spec_control_instr);
        reveal(Cpu::spec_jmp);
        reveal(Cpu::spec_jsr);
        reveal(Cpu::spec_rts);
        reveal(Cpu::spec_rti);
        reveal(Cpu::spec_brk);
        reveal(Cpu::spec_pha);
        reveal(Cpu::spec_php);
        reveal(Cpu::spec_pla);
        reveal(Cpu::spec_plp);
        match ins {
            Instruction::JMP => {
                let lo = self.fetch(bus);
                let hi = self.fetch(bus);
                if mode == AddrMode::IND {
                    let ptr = u8_to_u16(lo, hi);
                    let t_lo = bus.cpu_read(ptr);
                    let t_hi = bus.cpu_read(jmp_ind_high(ptr));
                    self.pc = u8_to_u16(t_lo, t_hi);
                } else {
                    self.pc = u8_to_u16(lo, hi);
                }
            },
            Instruction::JSR => {
                let lo = self.fetch(bus);
                let pc = self.pc;
                self.push(bus, (pc / 256) as u8);
                self.push(bus, (pc % 256) as u8);
                let hi = bus.cpu_read(self.pc);
                self.pc = u8_to_u16(lo, hi);
            },
            Instruction::RTS => {
                let lo = self.pull(bus);
                let hi = self.pull(bus);
                self.pc = wrap_inc16(u8_to_u16(lo, hi));
            },
            Instruction::RTI => {
                let f = self.pull(bus);
                let lo = self.pull(bus);
                let hi = self.pull(bus);
                self.set_flags(f);
                self.pc = u8_to_u16(lo, hi);
            },
            Instruction::BRK => {
                self.pc = wrap_inc16(self.pc);
                self.interrupt(bus, VEC_IRQ, true);
            },
            Instruction::PHA => {
                let a = self.a;
                self.push(bus, a);
            },
            Instruction::PHP => {
                let f = self.get_flags();
                self.push(bus, f + 16);
            },
            Instruction::PLA => {
                let m = self.pull(bus);
                self.a = m;
                self.set_zn(m);
            },
            Instruction::PLP => {
                let m = self.pull(bus);
                self.set_flags(m);
            },
            _ => self.implied_op(ins),
        }
    }

    fn boundary<B: CpuBus>(&mut self, bus: &mut B) -> (n: u32)
        ensures
            final(bus).pinned() == old(bus).pinned(),
            (*final(self), final(bus)@, n) == old(self).spec_boundary::<B>(old(bus)@),
            n >= 1,
            final(self).nmi == old(self).nmi && final(self).nmi_prev == old(self).nmi_prev,
            final(self).irq == old(self).irq && final(self).reset == old(self).reset,
            final(self).cycles == old(self).cycles,
    {
        reveal(Cpu::spec_boundary);
        if self.fault.is_some() {
            1
        } else if self.reset {
            self.interrupt(bus, VEC_RESET, false);
            NUM_CYCLES_INT
        } else if self.nmi_latch {
            self.nmi_latch = false;
            self.interrupt(bus, VEC_NMI, false);
            NUM_CYCLES_INT
        } else if self.irq && !self.i {
            self.interrupt(bus, VEC_IRQ, false);
            NUM_CYCLES_INT
        } else {
            let pc = self.pc;
            let op = self.fetch(bus);
            match decode(op) {
                None => {
                    self.fault = Some((pc, op));
                    1
                },
                Some((ins, mode)) => {
                    let t = self.taken(ins);
                    let cr = self.execute(bus, ins, mode);
                    proof {
                        lemma_documented_cycles_positive(ins, mode, cr, t);
                    }
                    instr_cycles(ins, mode, cr, t)
                },
            }
        }
    }

    fn sample(&mut self)
        ensures
            *final(self) == old(self).spec_sample(),
    {
        if self.nmi && !self.nmi_prev {
            self.nmi_latch = true;
        }
        self.nmi_prev = self.nmi;
    }

    /// Advances the CPU by one cycle: the inputs are sampled, and at an instruction
    /// boundary the next interrupt or instruction is performed and its length loaded.
    #[verifier::rlimit(100)]
    pub fn tick<B: CpuBus>(&mut self, bus: &mut B)
        ensures
            final(bus).pinned() == old(bus).pinned(),
            (*final(self), final(bus)@) == old(self).spec_tick::<B>(old(bus)@),
            final(self).nmi == old(self).nmi && final(self).nmi_prev == old(self).nmi,
            final(self).irq == old(self).irq && final(self).reset == old(self).reset,
            final(self).cycles == inc64(old(self).cycles),
            old(self).ins_cycles != 0 ==> final(self).ins_cycles == old(self).ins_cycles - 1,
            old(self).ins_cycles == 0 ==> final(self).ins_cycles + 1 == old(self).spec_sample().spec_boundary::<B>(
                old(bus)@,
            ).2,
    {
        let ghost c0 = self.spec_sample();
        let ghost b0 = bus@;
        self.sample();
        if self.ins_cycles == 0 {
            let n = self.boundary(bus);
            let ghost r = c0.spec_boundary::<B>(b0);
            assert(*self == r.0 && bus@ == r.1 && n == r.2);
            self.ins_cycles = n - 1;
        } else {
            self.ins_cycles = self.ins_cycles - 1;
        }
        self.cycles = wrap_inc64(self.cycles);
    }

    /// Runs to the next instruction boundary. From a boundary this performs exactly
    /// one interrupt sequence or instruction and counts its documented cycles.
    pub fn step<B: CpuBus>(&mut self, bus: &mut B)
        ensures
            final(bus).pinned() == old(bus).pinned(),
            final(self).ins_cycles == 0,
            old(self).ins_cycles == 0 ==> ({
                let (c1, b1, n) = old(self).spec_sample().spec_boundary::<B>(old(bus)@);
                &&& final(bus)@ == b1
                &&& *final(self) == Cpu { cycles: add64(old(self).cycles, n as nat), ins_cycles: 0, ..c1 }
            }),
    {
        let ghost start = *self;
        let ghost start_bus = bus@;
        let ghost start_pinned = bus.pinned();
        self.tick(bus);
        proof {
            lemma_add64_step(start.cycles, 0);
            if start.ins_cycles == 0 {
                let (c1, b1, n) = start.spec_sample().spec_boundary::<B>(start_bus);
                assert(self.cycles == add64(start.cycles, (n - self.ins_cycles) as nat));
            }
        }
        while self.ins_cycles != 0
            invariant
                bus.pinned() == start_pinned,
                start.ins_cycles == 0 ==> ({
                    let (c1, b1, n) = start.spec_sample().spec_boundary::<B>(start_bus);
                    &&& bus@ == b1
                    &&& n >= 1
                    &&& self.nmi_prev == self.nmi
                    &&& self.ins_cycles < n
                    &&& *self == Cpu {
                        cycles: add64(start.cycles, (n - self.ins_cycles) as nat),
                        ins_cycles: self.ins_cycles,
                        ..c1
                    }
                }),
            decreases self.ins_cycles,
        {
            proof {
                if start.ins_cycles == 0 {
                    let (c1, b1, n) = start.spec_sample().spec_boundary::<B>(start_bus);
                    lemma_add64_step(start.cycles, (n - self.ins_cycles) as nat);
                }
            }
            self.tick(bus);
        }
    }
}

fn read_ins(ins: Instruction) -> (r: bool)
    ensures
        r == is_read(ins),
{
    matches!(ins, Instruction::ADC | Instruction::AND | Instruction::BIT | Instruction::CMP
        | Instruction::CPX | Instruction::CPY | Instruction::EOR | Instruction::LDA
        | Instruction::LDX | Instruction::LDY | Instruction::ORA | Instruction::SBC)
}

fn rmw_ins(ins: Instruction) -> (r: bool)
    ensures
        r == is_rmw(ins),
{
    matches!(ins, Instruction::ASL | Instruction::LSR | Instruction::ROL | Instruction::ROR
        | Instruction::INC | Instruction::DEC)
}

fn store_ins(ins: Instruction) -> (r: bool)
    ensures
        r == is_store(ins),
{
    matches!(ins, Instruction::STA | Instruction::STX | Instruction::STY)
}

fn branch_ins(ins: Instruction) -> (r: bool)
    ensures
        r == is_branch(ins),
{
    matches!(ins, Instruction::BCC | Instruction::BCS | Instruction::BEQ | Instruction::BMI
        | Instruction::BNE | Instruction::BPL | Instruction::BVC | Instruction::BVS)
}

/// The target of a branch whose operand ends at `pc`.
pub fn branch_to(pc: u16, off: u8) -> (r: u16)
    ensures
        r == branch_target(pc, off),
{
    if off < 128 {
        ((pc as u32 + off as u32) % 0x10000) as u16
    } else {
        ((pc as u32 + off as u32 + 0xFF00) % 0x10000) as u16
    }
}

/// The address from which JMP indirect takes its target's high byte.
pub fn jmp_ind_high(ptr: u16) -> (r: u16)
    ensures
        r == jmp_ind_high_addr(ptr),
{
    let page: u16 = ptr / 256;
    let low: u16 = (ptr % 256 + 1) % 256;
    assert(page * 256 <= 0xFF00) by (nonlinear_arith)
        requires page == ptr / 256;
    page * 256 + low
}

/// `x + k` on the 64-bit cycle counter, which wraps.
pub open spec fn add64(x: u64, k: nat) -> u64 {
    ((x + k) % 0x1_0000_0000_0000_0000) as u64
}

pub proof fn lemma_add64_step(x: u64, k: nat)
    ensures
        inc64(add64(x, k)) == add64(x, k + 1),
        add64(x, 0) == x,
{
    let m: int = 0x1_0000_0000_0000_0000;
    vstd::arithmetic::div_mod::lemma_add_mod_noop(x + k, 1, m);
    vstd::arithmetic::div_mod::lemma_small_mod(1, m as nat);
    vstd::arithmetic::div_mod::lemma_small_mod(x as nat, m as nat);
    vstd::arithmetic::div_mod::lemma_mod_bound(x + k, m);
}

proof fn lemma_documented_cycles_positive(ins: Instruction, mode: AddrMode, crossed: bool, taken: bool)
    ensures
        documented_cycles(ins, mode, crossed, taken) >= 2,
{
}

} // verus!
