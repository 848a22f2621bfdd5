//! Laws of the 6502 model: cycle counts, the ADC/SBC round trip, the stack and
//! interrupt round trips, and the JMP indirect page wrap.
use vstd::prelude::*;
use crate::cpu::{Cpu, CpuBus, VEC_IRQ, VEC_RESET, adc_spec, documented_cycles, inc16, jmp_ind_high_addr, sbc_spec, stack_addr, word};

use crate::flat_bus::{FlatBus, peek};
use crate::opcodes::{AddrMode, Instruction, opcode_info};

verus! {

/// At an instruction boundary with no RESET, NMI, unmasked IRQ or halt pending, the
/// CPU runs the instruction at PC for exactly its documented number of cycles, with
/// the page-crossing and branch penalties where its operands call for them.
pub proof fn law_instruction_cycles<B: CpuBus>(cpu: Cpu, bus: B::V, ins: Instruction, mode: AddrMode)
    requires
        cpu.fault is None,
        !cpu.reset,
        !cpu.nmi_latch,
        !(cpu.irq && !cpu.i),
        opcode_info(B::spec_read(bus, cpu.pc)) == Some((ins, mode)),
    ensures
        ({
            let (op, c1, b1) = cpu.spec_fetch::<B>(bus);
            let crossed = c1.spec_execute::<B>(b1, ins, mode).2;
            cpu.spec_boundary::<B>(bus).2 == documented_cycles(ins, mode, crossed, cpu.spec_taken(ins))
        }),
{
    reveal(Cpu::spec_boundary);
}

/// At an instruction boundary with RESET asserted (and no halt), the CPU runs the
/// interrupt sequence through the RESET vector, which takes seven cycles.
pub proof fn law_reset<B: CpuBus>(cpu: Cpu, bus: B::V)
    requires
        cpu.fault is None,
        cpu.reset,
    ensures
        ({
            let (c, b) = cpu.spec_interrupt::<B>(bus, VEC_RESET, false);
            cpu.spec_boundary::<B>(bus) == (c, b, 7u32)
        }),
{
    reveal(Cpu::spec_boundary);
}

/// ADC of `m` followed by SBC of `m` with carry set gives back `a` plus the first
/// carry; with the carry clear it gives back `a`.
pub proof fn law_adc_then_sbc(a: u8, m: u8, c0: bool)
    ensures
        sbc_spec(adc_spec(a, m, c0).0, m, true).0 == (a + (if c0 { 1int } else { 0 })) % 256,
        !c0 ==> sbc_spec(adc_spec(a, m, c0).0, m, true).0 == a,
{
    let c: int = if c0 { 1 } else { 0 };
    let r1 = (a + m + c) % 256;
    vstd::arithmetic::div_mod::lemma_add_mod_noop(a + m + c, 256 - m, 256);
    vstd::arithmetic::div_mod::lemma_mod_bound(a + m + c, 256);
    vstd::arithmetic::div_mod::lemma_mod_add_multiples_vanish(a + c, 256);
    vstd::arithmetic::div_mod::lemma_small_mod(a as nat, 256);
}







/// The high byte of a JMP indirect target comes from the next byte of the same page.
pub proof fn law_jmp_indirect_same_page(ptr: u16)
    ensures
        jmp_ind_high_addr(ptr) / 256 == ptr / 256,
        jmp_ind_high_addr(ptr) % 256 == (ptr % 256 + 1) % 256,
{
}

proof fn lemma_flag_bits(n: int, v: int, d: int, i: int, z: int, c: int, b: int)
    requires
        0 <= n <= 1 && 0 <= v <= 1 && 0 <= d <= 1 && 0 <= i <= 1 && 0 <= z <= 1 && 0 <= c <= 1 && 0 <= b <= 1,
    ensures
        ({
            let f = 128 * n + 64 * v + 32 + 16 * b + 8 * d + 4 * i + 2 * z + c;
            &&& (f >= 128) == (n == 1)
            &&& (f % 128 >= 64) == (v == 1)
            &&& (f % 16 >= 8) == (d == 1)
            &&& (f % 8 >= 4) == (i == 1)
            &&& (f % 4 >= 2) == (z == 1)
            &&& (f % 2 == 1) == (c == 1)
        }),
{
    let f = 128 * n + 64 * v + 32 + 16 * b + 8 * d + 4 * i + 2 * z + c;
    vstd::arithmetic::div_mod::lemma_fundamental_div_mod_converse(f, 128, n, 64 * v + 32 + 16 * b + 8 * d + 4 * i + 2 * z + c);
    vstd::arithmetic::div_mod::lemma_fundamental_div_mod_converse(f, 16, 8 * n + 4 * v + 2 + b, 8 * d + 4 * i + 2 * z + c);
    vstd::arithmetic::div_mod::lemma_fundamental_div_mod_converse(f, 8, 16 * n + 8 * v + 4 + 2 * b + d, 4 * i + 2 * z + c);
    vstd::arithmetic::div_mod::lemma_fundamental_div_mod_converse(f, 4, 32 * n + 16 * v + 8 + 4 * b + 2 * d + i, 2 * z + c);
    vstd::arithmetic::div_mod::lemma_fundamental_div_mod_converse(f, 2, 64 * n + 32 * v + 16 + 8 * b + 4 * d + 2 * i + z, c);
}

proof fn lemma_flags_round_trip(cpu: Cpu, extra: int)
    requires
        extra == 0 || extra == 16,
    ensures
        ({
            let c = cpu.with_flags((cpu.flags() + extra) as u8);
            c.n == cpu.n && c.v == cpu.v && c.d == cpu.d && c.i == cpu.i && c.z == cpu.z && c.c == cpu.c
        }),
{
    lemma_flag_bits(
        if cpu.n { 1 } else { 0 },
        if cpu.v { 1 } else { 0 },
        if cpu.d { 1 } else { 0 },
        if cpu.i { 1 } else { 0 },
        if cpu.z { 1 } else { 0 },
        if cpu.c { 1 } else { 0 },
        extra / 16,
    );
}

/// PHA then PLA on plain memory restores A and S and sets N and Z from A.
#[verifier::rlimit(100)]
pub proof fn law_pha_pla(cpu: Cpu, mem: Seq<u8>)
    requires
        mem.len() == 0x10000,
    ensures
        ({
            let (c1, m1, _) = cpu.spec_execute::<FlatBus>(mem, Instruction::PHA, AddrMode::IMP);
            let (c2, m2, _) = c1.spec_execute::<FlatBus>(m1, Instruction::PLA, AddrMode::IMP);
            &&& c2.a == cpu.a && c2.s == cpu.s
            &&& c2.z == (cpu.a == 0) && c2.n == (cpu.a >= 128)
        }),
{
    reveal(Cpu::spec_control_instr);
    reveal(Cpu::spec_pha);
    reveal(Cpu::spec_pla);
    let (c1, m1) = cpu.spec_push::<FlatBus>(mem, cpu.a);
    assert(cpu.spec_execute::<FlatBus>(mem, Instruction::PHA, AddrMode::IMP) == (c1, m1, false));
    let (v, c2, m2) = c1.spec_pull::<FlatBus>(m1);
    assert(c1.spec_execute::<FlatBus>(m1, Instruction::PLA, AddrMode::IMP) == (Cpu { a: v, ..c2 }.with_zn(v), m2, false));
    assert(v == cpu.a);
}

/// PHP then PLP on plain memory restores every flag and S; the byte pushed is the
/// status with bit 4 and bit 5 set.
#[verifier::rlimit(100)]
pub proof fn law_php_plp(cpu: Cpu, mem: Seq<u8>)
    requires
        mem.len() == 0x10000,
    ensures
        ({
            let (c1, m1, _) = cpu.spec_execute::<FlatBus>(mem, Instruction::PHP, AddrMode::IMP);
            let (c2, m2, _) = c1.spec_execute::<FlatBus>(m1, Instruction::PLP, AddrMode::IMP);
            &&& peek(m1, stack_addr(cpu.s)) == cpu.flags() + 16
            &&& c2.s == cpu.s && c2.flags() == cpu.flags()
            &&& c2.n == cpu.n && c2.v == cpu.v && c2.d == cpu.d && c2.i == cpu.i && c2.z == cpu.z
                && c2.c == cpu.c
        }),
{
    reveal(Cpu::spec_control_instr);
    reveal(Cpu::spec_php);
    reveal(Cpu::spec_plp);
    let (c1, m1) = cpu.spec_push::<FlatBus>(mem, (cpu.flags() + 16) as u8);
    assert(cpu.spec_execute::<FlatBus>(mem, Instruction::PHP, AddrMode::IMP) == (c1, m1, false));
    let (v, c2, m2) = c1.spec_pull::<FlatBus>(m1);
    assert(c1.spec_execute::<FlatBus>(m1, Instruction::PLP, AddrMode::IMP) == (c2.with_flags(v), m2, false));
    assert(v == cpu.flags() + 16);
    lemma_flags_round_trip(cpu, 16);
}

/// An interrupt sequence (IRQ, NMI or RESET vector, BRK's pushed status or not)
/// followed by RTI on plain memory restores PC, S and every flag.
#[verifier::rlimit(100)]
pub proof fn law_interrupt_rti(cpu: Cpu, mem: Seq<u8>, vec: u16, brk: bool)
    requires
        mem.len() == 0x10000,
    ensures
        ({
            let (c1, m1) = cpu.spec_interrupt::<FlatBus>(mem, vec, brk);
            let (c2, m2, _) = c1.spec_execute::<FlatBus>(m1, Instruction::RTI, AddrMode::IMP);
            &&& c1.i
            &&& c2.pc == cpu.pc && c2.s == cpu.s
            &&& c2.n == cpu.n && c2.v == cpu.v && c2.d == cpu.d && c2.i == cpu.i && c2.z == cpu.z
                && c2.c == cpu.c
        }),
{
    reveal(Cpu::spec_control_instr);
    reveal(Cpu::spec_rti);
    let (c1, m1) = cpu.spec_interrupt::<FlatBus>(mem, vec, brk);
    let (f, d1, n1) = c1.spec_pull::<FlatBus>(m1);
    let (lo, d2, n2) = d1.spec_pull::<FlatBus>(n1);
    let (hi, d3, n3) = d2.spec_pull::<FlatBus>(n2);
    assert(c1.spec_execute::<FlatBus>(m1, Instruction::RTI, AddrMode::IMP) == (
    Cpu { pc: word(lo, hi), ..d3.with_flags(f) }, n3, false));
    assert(f == cpu.flags() + (if brk { 16int } else { 0 }));
    assert(lo == cpu.pc % 256);
    assert(hi == cpu.pc / 256);
    lemma_flags_round_trip(cpu, if brk { 16 } else { 0 });
}

/// BRK (PC just past its opcode) followed by RTI on plain memory returns two bytes
/// past the BRK opcode, with S and every flag restored.
#[verifier::rlimit(100)]
pub proof fn law_brk_rti(cpu: Cpu, mem: Seq<u8>)
    requires
        mem.len() == 0x10000,
    ensures
        ({
            let (c1, m1, _) = cpu.spec_execute::<FlatBus>(mem, Instruction::BRK, AddrMode::IMP);
            let (c2, m2, _) = c1.spec_execute::<FlatBus>(m1, Instruction::RTI, AddrMode::IMP);
            &&& c2.pc == inc16(cpu.pc) && c2.s == cpu.s
            &&& c2.n == cpu.n && c2.v == cpu.v && c2.d == cpu.d && c2.i == cpu.i && c2.z == cpu.z
                && c2.c == cpu.c
        }),
{
    reveal(Cpu::spec_control_instr);
    reveal(Cpu::spec_brk);
    reveal(Cpu::spec_rti);
    law_interrupt_rti(Cpu { pc: inc16(cpu.pc), ..cpu }, mem, VEC_IRQ, true);
}

/// JMP ($10FF) takes its target's low byte from 0x10FF and its high byte from
/// 0x1000: the pointer's page is kept.
#[verifier::rlimit(100)]
pub proof fn law_jmp_indirect_page_wrap(cpu: Cpu, mem: Seq<u8>)
    requires
        mem.len() == 0x10000,
        cpu.pc <= 0xFFFD,
        mem[cpu.pc as int] == 0xFF,
        mem[cpu.pc + 1] == 0x10,
    ensures
        cpu.spec_execute::<FlatBus>(mem, Instruction::JMP, AddrMode::IND).0.pc == word(mem[0x10FF], mem[0x1000]),
        jmp_ind_high_addr(0x10FF) == 0x1000,
{
    reveal(Cpu::spec_control_instr);
    reveal(Cpu::spec_jmp);
}

} // verus!
