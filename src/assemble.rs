//! A small 6502 assembler: one instruction per line, `;` starts a comment,
//! operands in hexadecimal. Used to write test programs.
use vstd::prelude::*;
use crate::cpu::is_branch;
use crate::opcodes::{AddrMode, Instruction, decode, opcode_info};
use vstd::string::{StringExecFns, StringSliceAdditionalSpecFns};
use crate::rom::{append_decimal, decimal};

verus! {

/// The mnemonic that three upper-case letters spell.
pub open spec fn mnemonic_spec(t: Seq<u8>) -> Option<Instruction> {
    if t.len() != 3 {
        None
    } else {
        match (t[0], t[1], t[2]) {
            (65u8, 68u8, 67u8) => Some(Instruction::ADC),
            (65u8, 78u8, 68u8) => Some(Instruction::AND),
            (65u8, 83u8, 76u8) => Some(Instruction::ASL),
            (66u8, 67u8, 67u8) => Some(Instruction::BCC),
            (66u8, 67u8, 83u8) => Some(Instruction::BCS),
            (66u8, 69u8, 81u8) => Some(Instruction::BEQ),
            (66u8, 73u8, 84u8) => Some(Instruction::BIT),
            (66u8, 77u8, 73u8) => Some(Instruction::BMI),
            (66u8, 78u8, 69u8) => Some(Instruction::BNE),
            (66u8, 80u8, 76u8) => Some(Instruction::BPL),
            (66u8, 82u8, 75u8) => Some(Instruction::BRK),
            (66u8, 86u8, 67u8) => Some(Instruction::BVC),
            (66u8, 86u8, 83u8) => Some(Instruction::BVS),
            (67u8, 76u8, 67u8) => Some(Instruction::CLC),
            (67u8, 76u8, 68u8) => Some(Instruction::CLD),
            (67u8, 76u8, 73u8) => Some(Instruction::CLI),
            (67u8, 76u8, 86u8) => Some(Instruction::CLV),
            (67u8, 77u8, 80u8) => Some(Instruction::CMP),
            (67u8, 80u8, 88u8) => Some(Instruction::CPX),
            (67u8, 80u8, 89u8) => Some(Instruction::CPY),
            (68u8, 69u8, 67u8) => Some(Instruction::DEC),
            (68u8, 69u8, 88u8) => Some(Instruction::DEX),
            (68u8, 69u8, 89u8) => Some(Instruction::DEY),
            (69u8, 79u8, 82u8) => Some(Instruction::EOR),
            (73u8, 78u8, 67u8) => Some(Instruction::INC),
            (73u8, 78u8, 88u8) => Some(Instruction::INX),
            (73u8, 78u8, 89u8) => Some(Instruction::INY),
            (74u8, 77u8, 80u8) => Some(Instruction::JMP),
            (74u8, 83u8, 82u8) => Some(Instruction::JSR),
            (76u8, 68u8, 65u8) => Some(Instruction::LDA),
            (76u8, 68u8, 88u8) => Some(Instruction::LDX),
            (76u8, 68u8, 89u8) => Some(Instruction::LDY),
            (76u8, 83u8, 82u8) => Some(Instruction::LSR),
            (78u8, 79u8, 80u8) => Some(Instruction::NOP),
            (79u8, 82u8, 65u8) => Some(Instruction::ORA),
            (80u8, 72u8, 65u8) => Some(Instruction::PHA),
            (80u8, 72u8, 80u8) => Some(Instruction::PHP),
            (80u8, 76u8, 65u8) => Some(Instruction::PLA),
            (80u8, 76u8, 80u8) => Some(Instruction::PLP),
            (82u8, 79u8, 76u8) => Some(Instruction::ROL),
            (82u8, 79u8, 82u8) => Some(Instruction::ROR),
            (82u8, 84u8, 73u8) => Some(Instruction::RTI),
            (82u8, 84u8, 83u8) => Some(Instruction::RTS),
            (83u8, 66u8, 67u8) => Some(Instruction::SBC),
            (83u8, 69u8, 67u8) => Some(Instruction::SEC),
            (83u8, 69u8, 68u8) => Some(Instruction::SED),
            (83u8, 69u8, 73u8) => Some(Instruction::SEI),
            (83u8, 84u8, 65u8) => Some(Instruction::STA),
            (83u8, 84u8, 88u8) => Some(Instruction::STX),
            (83u8, 84u8, 89u8) => Some(Instruction::STY),
            (84u8, 65u8, 88u8) => Some(Instruction::TAX),
            (84u8, 65u8, 89u8) => Some(Instruction::TAY),
            (84u8, 83u8, 88u8) => Some(Instruction::TSX),
            (84u8, 88u8, 65u8) => Some(Instruction::TXA),
            (84u8, 88u8, 83u8) => Some(Instruction::TXS),
            (84u8, 89u8, 65u8) => Some(Instruction::TYA),
            _ => None,
        }
    }
}

fn mnemonic(t: &Vec<u8>) -> (r: Option<Instruction>)
    ensures
        r == mnemonic_spec(t@),
{
    if t.len() != 3 {
        None
    } else {
        match (t[0], t[1], t[2]) {
            (65, 68, 67) => Some(Instruction::ADC),
            (65, 78, 68) => Some(Instruction::AND),
            (65, 83, 76) => Some(Instruction::ASL),
            (66, 67, 67) => Some(Instruction::BCC),
            (66, 67, 83) => Some(Instruction::BCS),
            (66, 69, 81) => Some(Instruction::BEQ),
            (66, 73, 84) => Some(Instruction::BIT),
            (66, 77, 73) => Some(Instruction::BMI),
            (66, 78, 69) => Some(Instruction::BNE),
            (66, 80, 76) => Some(Instruction::BPL),
            (66, 82, 75) => Some(Instruction::BRK),
            (66, 86, 67) => Some(Instruction::BVC),
            (66, 86, 83) => Some(Instruction::BVS),
            (67, 76, 67) => Some(Instruction::CLC),
            (67, 76, 68) => Some(Instruction::CLD),
            (67, 76, 73) => Some(Instruction::CLI),
            (67, 76, 86) => Some(Instruction::CLV),
            (67, 77, 80) => Some(Instruction::CMP),
            (67, 80, 88) => Some(Instruction::CPX),
            (67, 80, 89) => Some(Instruction::CPY),
            (68, 69, 67) => Some(Instruction::DEC),
            (68, 69, 88) => Some(Instruction::DEX),
            (68, 69, 89) => Some(Instruction::DEY),
            (69, 79, 82) => Some(Instruction::EOR),
            (73, 78, 67) => Some(Instruction::INC),
            (73, 78, 88) => Some(Instruction::INX),
            (73, 78, 89) => Some(Instruction::INY),
            (74, 77, 80) => Some(Instruction::JMP),
            (74, 83, 82) => Some(Instruction::JSR),
            (76, 68, 65) => Some(Instruction::LDA),
            (76, 68, 88) => Some(Instruction::LDX),
            (76, 68, 89) => Some(Instruction::LDY),
            (76, 83, 82) => Some(Instruction::LSR),
            (78, 79, 80) => Some(Instruction::NOP),
            (79, 82, 65) => Some(Instruction::ORA),
            (80, 72, 65) => Some(Instruction::PHA),
            (80, 72, 80) => Some(Instruction::PHP),
            (80, 76, 65) => Some(Instruction::PLA),
            (80, 76, 80) => Some(Instruction::PLP),
            (82, 79, 76) => Some(Instruction::ROL),
            (82, 79, 82) => Some(Instruction::ROR),
            (82, 84, 73) => Some(Instruction::RTI),
            (82, 84, 83) => Some(Instruction::RTS),
            (83, 66, 67) => Some(Instruction::SBC),
            (83, 69, 67) => Some(Instruction::SEC),
            (83, 69, 68) => Some(Instruction::SED),
            (83, 69, 73) => Some(Instruction::SEI),
            (83, 84, 65) => Some(Instruction::STA),
            (83, 84, 88) => Some(Instruction::STX),
            (83, 84, 89) => Some(Instruction::STY),
            (84, 65, 88) => Some(Instruction::TAX),
            (84, 65, 89) => Some(Instruction::TAY),
            (84, 83, 88) => Some(Instruction::TSX),
            (84, 88, 65) => Some(Instruction::TXA),
            (84, 88, 83) => Some(Instruction::TXS),
            (84, 89, 65) => Some(Instruction::TYA),
            _ => None,
        }
    }
}

pub open spec fn is_hex(c: u8) -> bool {
    (0x30 <= c <= 0x39) || (0x41 <= c <= 0x46) || (0x61 <= c <= 0x66)
}

pub open spec fn hex_val(c: u8) -> int {
    if c <= 0x39 { c - 0x30 } else if c <= 0x46 { c - 0x37 } else { c - 0x57 }
}

/// `n` hexadecimal digits start at `i`.
pub open spec fn hex_run(t: Seq<u8>, i: int, n: int) -> bool {
    forall|k: int| i <= k < i + n ==> is_hex(#[trigger] t[k])
}

/// The addressing mode that an operand's syntax names: `A`, `$hhhh`, `$hh`,
/// `$hh,X`, `$hh,Y`, `$hhhh,X`, `$hhhh,Y`, `#$hh`, `($hhhh)`, `($hh,X)`, `($hh),Y`.
pub open spec fn mode_spec(t: Seq<u8>) -> Option<AddrMode> {
    let n = t.len();
    if n == 1 && t[0] == 0x41 {
        Some(AddrMode::IMP)
    } else if n >= 3 && t[0] == 0x24 && hex_run(t, 1, 2) {
        if n == 3 {
            Some(AddrMode::ZP)
        } else if n == 5 && hex_run(t, 3, 2) {
            Some(AddrMode::ABS)
        } else if n == 5 && t[3] == 0x2C && t[4] == 0x58 {
            Some(AddrMode::ZPX)
        } else if n == 5 && t[3] == 0x2C && t[4] == 0x59 {
            Some(AddrMode::ZPY)
        } else if n == 7 && hex_run(t, 3, 2) && t[5] == 0x2C && t[6] == 0x58 {
            Some(AddrMode::ABSX)
        } else if n == 7 && hex_run(t, 3, 2) && t[5] == 0x2C && t[6] == 0x59 {
            Some(AddrMode::ABSY)
        } else {
            None
        }
    } else if n == 4 && t[0] == 0x23 && t[1] == 0x24 && hex_run(t, 2, 2) {
        Some(AddrMode::IMM)
    } else if n == 7 && t[0] == 0x28 && t[1] == 0x24 && hex_run(t, 2, 2) {
        if hex_run(t, 4, 2) && t[6] == 0x29 {
            Some(AddrMode::IND)
        } else if t[4] == 0x2C && t[5] == 0x58 && t[6] == 0x29 {
            Some(AddrMode::INDX)
        } else if t[4] == 0x29 && t[5] == 0x2C && t[6] == 0x59 {
            Some(AddrMode::INDY)
        } else {
            None
        }
    } else {
        None
    }
}

fn is_hex_byte(c: u8) -> (r: bool)
    ensures
        r == is_hex(c),
{
    (0x30 <= c && c <= 0x39) || (0x41 <= c && c <= 0x46) || (0x61 <= c && c <= 0x66)
}

fn hex_run_at(t: &Vec<u8>, i: usize, n: usize) -> (r: bool)
    requires
        i + n <= t@.len(),
    ensures
        r == hex_run(t@, i as int, n as int),
{
    let len = t.len();
    let end = i + n;
    let mut k: usize = i;
    while k < end
        invariant
            end == i + n,
            i <= k <= i + n,
            i + n <= t@.len(),
            hex_run(t@, i as int, k - i),
        decreases i + n - k,
    {
        if !is_hex_byte(t[k]) {
            return false;
        }
        k = k + 1;
    }
    true
}

fn addr_mode(t: &Vec<u8>) -> (r: Option<AddrMode>)
    ensures
        r == mode_spec(t@),
{
    let n = t.len();
    if n == 1 && t[0] == 0x41 {
        Some(AddrMode::IMP)
    } else if n >= 3 && t[0] == 0x24 && hex_run_at(t, 1, 2) {
        if n == 3 {
            Some(AddrMode::ZP)
        } else if n == 5 && hex_run_at(t, 3, 2) {
            Some(AddrMode::ABS)
        } else if n == 5 && t[3] == 0x2C && t[4] == 0x58 {
            Some(AddrMode::ZPX)
        } else if n == 5 && t[3] == 0x2C && t[4] == 0x59 {
            Some(AddrMode::ZPY)
        } else if n == 7 && hex_run_at(t, 3, 2) && t[5] == 0x2C && t[6] == 0x58 {
            Some(AddrMode::ABSX)
        } else if n == 7 && hex_run_at(t, 3, 2) && t[5] == 0x2C && t[6] == 0x59 {
            Some(AddrMode::ABSY)
        } else {
            None
        }
    } else if n == 4 && t[0] == 0x23 && t[1] == 0x24 && hex_run_at(t, 2, 2) {
        Some(AddrMode::IMM)
    } else if n == 7 && t[0] == 0x28 && t[1] == 0x24 && hex_run_at(t, 2, 2) {
        if hex_run_at(t, 4, 2) && t[6] == 0x29 {
            Some(AddrMode::IND)
        } else if t[4] == 0x2C && t[5] == 0x58 && t[6] == 0x29 {
            Some(AddrMode::INDX)
        } else if t[4] == 0x29 && t[5] == 0x2C && t[6] == 0x59 {
            Some(AddrMode::INDY)
        } else {
            None
        }
    } else {
        None
    }
}

/// The bytes that the pairs of hexadecimal digits in `t` spell, scanning left to
/// right without overlap.
pub open spec fn hex_pairs(t: Seq<u8>) -> Seq<u8>
    decreases t.len(),
{
    if t.len() < 2 {
        Seq::empty()
    } else if is_hex(t[0]) && is_hex(t[1]) {
        seq![(hex_val(t[0]) * 16 + hex_val(t[1])) as u8] + hex_pairs(t.subrange(2, t.len() as int))
    } else {
        hex_pairs(t.subrange(1, t.len() as int))
    }
}

/// The operand bytes of an instruction: the hex pairs, last first (little-endian).
pub open spec fn operand_bytes(t: Seq<u8>) -> Seq<u8> {
    let p = hex_pairs(t);
    Seq::new(p.len(), |i: int| p[p.len() - 1 - i])
}

fn hex_digit(c: u8) -> (r: u8)
    requires
        is_hex(c),
    ensures
        r == hex_val(c),
{
    if c <= 0x39 { c - 0x30 } else if c <= 0x46 { c - 0x37 } else { c - 0x57 }
}

fn operand_args(t: &Vec<u8>) -> (r: Vec<u8>)
    ensures
        r@ == operand_bytes(t@),
{
    let mut pairs: Vec<u8> = Vec::new();
    let mut i: usize = 0;
    let n = t.len();
    assert(t@.subrange(0, n as int) =~= t@);
    assert(pairs@ + hex_pairs(t@) =~= hex_pairs(t@));
    while n - i >= 2
        invariant
            n == t@.len(),
            i <= n,
            pairs@ + hex_pairs(t@.subrange(i as int, n as int)) == hex_pairs(t@),
        decreases n - i,
    {
        let ghost rest = t@.subrange(i as int, n as int);
        if is_hex_byte(t[i]) && is_hex_byte(t[i + 1]) {
            let b: u8 = hex_digit(t[i]) * 16 + hex_digit(t[i + 1]);
            assert(rest.subrange(2, rest.len() as int) =~= t@.subrange(i + 2, n as int));
            pairs.push(b);
            i = i + 2;
            assert(pairs@ + hex_pairs(t@.subrange(i as int, n as int)) =~= hex_pairs(t@));
        } else {
            assert(rest.subrange(1, rest.len() as int) =~= t@.subrange(i + 1, n as int));
            i = i + 1;
        }
    }
    assert(hex_pairs(t@.subrange(i as int, n as int)) =~= Seq::<u8>::empty());
    assert(pairs@ =~= hex_pairs(t@));
    let mut r: Vec<u8> = Vec::new();
    let m = pairs.len();
    let mut j: usize = 0;
    while j < m
        invariant
            m == pairs@.len(),
            j <= m,
            r@ =~= Seq::new(j as nat, |k: int| pairs@[m - 1 - k]),
        decreases m - j,
    {
        r.push(pairs[m - 1 - j]);
        j = j + 1;
    }
    r
}

/// The least opcode at or after `from` that encodes `(ins, mode)`.
pub open spec fn opcode_from(ins: Instruction, mode: AddrMode, from: int) -> Option<u8>
    decreases 256 - from,
{
    if from > 255 || from < 0 {
        None
    } else if opcode_info(from as u8) == Some((ins, mode)) {
        Some(from as u8)
    } else {
        opcode_from(ins, mode, from + 1)
    }
}

/// The opcode of an instruction in an addressing mode, if the instruction set
/// has one.
pub open spec fn opcode_spec(ins: Instruction, mode: AddrMode) -> Option<u8> {
    opcode_from(ins, mode, 0)
}

fn get_opcode(ins: Instruction, mode: AddrMode) -> (r: Option<u8>)
    ensures
        r == opcode_spec(ins, mode),
{
    let mut op: u16 = 0;
    while op < 256
        invariant
            op <= 256,
            opcode_from(ins, mode, 0) == opcode_from(ins, mode, op as int),
        decreases 256 - op,
    {
        match decode(op as u8) {
            Some((i2, m2)) => {
                if i2 == ins && m2 == mode {
                    return Some(op as u8);
                }
            },
            None => {},
        }
        op = op + 1;
    }
    None
}

/// The machine code of one line's tokens: at most two, a mnemonic and an
/// operand; a branch's operand is relative; no operand means implied.
pub open spec fn encode_tokens(toks: Seq<Seq<u8>>) -> Option<Seq<u8>> {
    if toks.len() == 0 {
        Some(Seq::empty())
    } else if toks.len() > 2 {
        None
    } else {
        match mnemonic_spec(toks[0]) {
            None => None,
            Some(ins) => {
                let mode = if toks.len() == 1 {
                    Some(AddrMode::IMP)
                } else if is_branch(ins) {
                    Some(AddrMode::REL)
                } else {
                    mode_spec(toks[1])
                };
                match mode {
                    None => None,
                    Some(m) => match opcode_spec(ins, m) {
                        None => None,
                        Some(op) => Some(
                            seq![op] + (if m != AddrMode::IMP { operand_bytes(toks[1]) } else { Seq::empty() }),
                        ),
                    },
                }
            },
        }
    }
}

/// The assembler's progress through a source text: the token being read, the
/// tokens of the current line, whether a comment runs to the end of the line, the
/// machine code so far, whether a line failed, and the index of the current line.
pub struct AsmState {
    pub tok: Seq<u8>,
    pub toks: Seq<Seq<u8>>,
    pub comment: bool,
    pub out: Seq<u8>,
    pub failed: bool,
    pub line: nat,
}

pub open spec fn asm_init() -> AsmState {
    AsmState { tok: Seq::empty(), toks: Seq::empty(), comment: false, out: Seq::empty(), failed: false, line: 0 }
}

pub open spec fn is_space(c: u8) -> bool {
    c == 0x20 || (0x09 <= c <= 0x0D)
}

pub open spec fn end_token(st: AsmState) -> AsmState {
    if st.tok.len() > 0 {
        AsmState { toks: st.toks.push(st.tok), tok: Seq::empty(), ..st }
    } else {
        st
    }
}

/// The end of a line: its tokens are encoded and appended, or the text fails.
pub open spec fn end_line(st: AsmState) -> AsmState {
    if st.failed {
        st
    } else {
        let s1 = end_token(st);
        match encode_tokens(s1.toks) {
            Some(b) => AsmState {
                tok: Seq::empty(),
                toks: Seq::empty(),
                comment: false,
                out: s1.out + b,
                failed: false,
                line: s1.line + 1,
            },
            None => AsmState { failed: true, ..s1 },
        }
    }
}

pub open spec fn asm_step(st: AsmState, c: u8) -> AsmState {
    if st.failed {
        st
    } else if c == 0x0A {
        end_line(st)
    } else if st.comment {
        st
    } else if c == 0x3B {
        AsmState { comment: true, ..end_token(st) }
    } else if is_space(c) {
        end_token(st)
    } else {
        AsmState { tok: st.tok.push(c), ..st }
    }
}

pub open spec fn asm_run(s: Seq<u8>) -> AsmState
    decreases s.len(),
{
    if s.len() == 0 {
        asm_init()
    } else {
        asm_step(asm_run(s.drop_last()), s.last())
    }
}

/// The machine code of a source text, or `None` when a line is not an
/// instruction.
pub open spec fn assemble_spec(s: Seq<u8>) -> Option<Seq<u8>> {
    let st = end_line(asm_run(s));
    if st.failed { None } else { Some(st.out) }
}

/// The index (from 0) of the first line that is not an instruction.
pub open spec fn failing_line(s: Seq<u8>) -> nat {
    end_line(asm_run(s)).line
}

/// The error text for a line that is not an instruction.
pub open spec fn line_error(line: nat) -> Seq<char> {
    "Error at line "@ + decimal(line) + ": invalid instruction"@
}

pub open spec fn token_views(toks: Seq<Vec<u8>>) -> Seq<Seq<u8>> {
    toks.map_values(|v: Vec<u8>| v@)
}

fn branch_mnemonic(ins: Instruction) -> (r: bool)
    ensures
        r == is_branch(ins),
{
    matches!(ins, Instruction::BCC | Instruction::BCS | Instruction::BEQ | Instruction::BMI
        | Instruction::BNE | Instruction::BPL | Instruction::BVC | Instruction::BVS)
}

fn encode_line(toks: &Vec<Vec<u8>>) -> (r: Option<Vec<u8>>)
    ensures
        r is Some <==> encode_tokens(token_views(toks@)) is Some,
        r matches Some(b) ==> encode_tokens(token_views(toks@)) == Some(b@),
{
    let ghost tv = token_views(toks@);
    if toks.len() == 0 {
        return Some(Vec::new());
    }
    if toks.len() > 2 {
        return None;
    }
    assert(tv[0] == toks@[0]@);
    let ins = match mnemonic(&toks[0]) {
        None => return None,
        Some(i) => i,
    };
    let mode = if toks.len() == 1 {
        AddrMode::IMP
    } else if branch_mnemonic(ins) {
        AddrMode::REL
    } else {
        assert(tv[1] == toks@[1]@);
        match addr_mode(&toks[1]) {
            None => return None,
            Some(m) => m,
        }
    };
    let op = match get_opcode(ins, mode) {
        None => return None,
        Some(o) => o,
    };
    let mut v: Vec<u8> = Vec::new();
    v.push(op);
    if mode != AddrMode::IMP {
        assert(tv[1] == toks@[1]@);
        let mut args = operand_args(&toks[1]);
        v.append(&mut args);
    }
    proof {
        assert(v@ =~= seq![op] + (if mode != AddrMode::IMP { operand_bytes(tv[1]) } else { Seq::empty() }));
    }
    Some(v)
}

struct Asm {
    tok: Vec<u8>,
    toks: Vec<Vec<u8>>,
    comment: bool,
    out: Vec<u8>,
    failed: bool,
    line: u128,
}

impl Asm {
    spec fn view(&self) -> AsmState {
        AsmState {
            tok: self.tok@,
            toks: token_views(self.toks@),
            comment: self.comment,
            out: self.out@,
            failed: self.failed,
            line: self.line as nat,
        }
    }

    fn end_token(&mut self)
        ensures
            final(self).view() == end_token(old(self).view()),
    {
        if self.tok.len() > 0 {
            let mut t: Vec<u8> = Vec::new();
            std::mem::swap(&mut t, &mut self.tok);
            let ghost old_toks = self.toks@;
            self.toks.push(t);
            assert(token_views(self.toks@) =~= token_views(old_toks).push(t@));
        }
    }

    fn end_line(&mut self)
        requires
            old(self).line < u128::MAX,
        ensures
            final(self).view() == end_line(old(self).view()),
            final(self).line <= old(self).line + 1,
    {
        if !self.failed {
            self.end_token();
            match encode_line(&self.toks) {
                Some(mut b) => {
                    self.out.append(&mut b);
                    self.tok = Vec::new();
                    self.toks = Vec::new();
                    self.comment = false;
                    self.line = self.line + 1;
                    assert(token_views(self.toks@) =~= Seq::<Seq<u8>>::empty());
                },
                None => {
                    self.failed = true;
                },
            }
        }
    }

    fn step(&mut self, c: u8)
        requires
            old(self).line < u128::MAX,
        ensures
            final(self).view() == asm_step(old(self).view(), c),
            final(self).line <= old(self).line + 1,
    {
        if self.failed {
        } else if c == 0x0A {
            self.end_line();
        } else if self.comment {
        } else if c == 0x3B {
            self.end_token();
            self.comment = true;
        } else if c == 0x20 || (0x09 <= c && c <= 0x0D) {
            self.end_token();
        } else {
            self.tok.push(c);
        }
    }
}

/// Assembles a source text: one instruction per line, a mnemonic and at most one
/// operand, `;` to the end of the line a comment, operands in hexadecimal. Fails
/// exactly when a line is not an instruction of the documented set.
pub fn assemble(src: &str) -> (r: Result<Vec<u8>, String>)
    ensures
        r is Ok <==> assemble_spec(src.spec_bytes()) is Some,
        r matches Ok(b) ==> assemble_spec(src.spec_bytes()) == Some(b@),
        r matches Err(e) ==> e@ == line_error(failing_line(src.spec_bytes())),
{
    let bytes = src.as_bytes();
    let mut st = Asm { tok: Vec::new(), toks: Vec::new(), comment: false, out: Vec::new(), failed: false, line: 0 };
    assert(token_views(st.toks@) =~= Seq::<Seq<u8>>::empty());
    let mut i: usize = 0;
    let n = bytes.len();
    while i < n
        invariant
            n == bytes@.len(),
            i <= n,
            st.view() == asm_run(bytes@.subrange(0, i as int)),
            st.line <= i,
        decreases n - i,
    {
        assert(bytes@.subrange(0, i + 1).drop_last() =~= bytes@.subrange(0, i as int));
        st.step(bytes[i]);
        i = i + 1;
    }
    assert(bytes@.subrange(0, n as int) =~= bytes@);
    st.end_line();
    if st.failed {
        let mut e = String::new();
        e.append("Error at line ");
        append_decimal(&mut e, st.line as u64);
        e.append(": invalid instruction");
        assert(e@ =~= line_error(st.line as nat));
        Err(e)
    } else {
        Ok(st.out)
    }
}

/// The three letters of a mnemonic.
pub open spec fn name_spec(ins: Instruction) -> (u8, u8, u8) {
    match ins {
        Instruction::ADC => (65, 68, 67),
        Instruction::AND => (65, 78, 68),
        Instruction::ASL => (65, 83, 76),
        Instruction::BCC => (66, 67, 67),
        Instruction::BCS => (66, 67, 83),
        Instruction::BEQ => (66, 69, 81),
        Instruction::BIT => (66, 73, 84),
        Instruction::BMI => (66, 77, 73),
        Instruction::BNE => (66, 78, 69),
        Instruction::BPL => (66, 80, 76),
        Instruction::BRK => (66, 82, 75),
        Instruction::BVC => (66, 86, 67),
        Instruction::BVS => (66, 86, 83),
        Instruction::CLC => (67, 76, 67),
        Instruction::CLD => (67, 76, 68),
        Instruction::CLI => (67, 76, 73),
        Instruction::CLV => (67, 76, 86),
        Instruction::CMP => (67, 77, 80),
        Instruction::CPX => (67, 80, 88),
        Instruction::CPY => (67, 80, 89),
        Instruction::DEC => (68, 69, 67),
        Instruction::DEX => (68, 69, 88),
        Instruction::DEY => (68, 69, 89),
        Instruction::EOR => (69, 79, 82),
        Instruction::INC => (73, 78, 67),
        Instruction::INX => (73, 78, 88),
        Instruction::INY => (73, 78, 89),
        Instruction::JMP => (74, 77, 80),
        Instruction::JSR => (74, 83, 82),
        Instruction::LDA => (76, 68, 65),
        Instruction::LDX => (76, 68, 88),
        Instruction::LDY => (76, 68, 89),
        Instruction::LSR => (76, 83, 82),
        Instruction::NOP => (78, 79, 80),
        Instruction::ORA => (79, 82, 65),
        Instruction::PHA => (80, 72, 65),
        Instruction::PHP => (80, 72, 80),
        Instruction::PLA => (80, 76, 65),
        Instruction::PLP => (80, 76, 80),
        Instruction::ROL => (82, 79, 76),
        Instruction::ROR => (82, 79, 82),
        Instruction::RTI => (82, 84, 73),
        Instruction::RTS => (82, 84, 83),
        Instruction::SBC => (83, 66, 67),
        Instruction::SEC => (83, 69, 67),
        Instruction::SED => (83, 69, 68),
        Instruction::SEI => (83, 69, 73),
        Instruction::STA => (83, 84, 65),
        Instruction::STX => (83, 84, 88),
        Instruction::STY => (83, 84, 89),
        Instruction::TAX => (84, 65, 88),
        Instruction::TAY => (84, 65, 89),
        Instruction::TSX => (84, 83, 88),
        Instruction::TXA => (84, 88, 65),
        Instruction::TXS => (84, 88, 83),
        Instruction::TYA => (84, 89, 65),
    }
}

fn name_of(ins: Instruction) -> (r: (u8, u8, u8))
    ensures
        r == name_spec(ins),
        r.0 < 128 && r.1 < 128 && r.2 < 128,
{
    match ins {
        Instruction::ADC => (65, 68, 67),
        Instruction::AND => (65, 78, 68),
        Instruction::ASL => (65, 83, 76),
        Instruction::BCC => (66, 67, 67),
        Instruction::BCS => (66, 67, 83),
        Instruction::BEQ => (66, 69, 81),
        Instruction::BIT => (66, 73, 84),
        Instruction::BMI => (66, 77, 73),
        Instruction::BNE => (66, 78, 69),
        Instruction::BPL => (66, 80, 76),
        Instruction::BRK => (66, 82, 75),
        Instruction::BVC => (66, 86, 67),
        Instruction::BVS => (66, 86, 83),
        Instruction::CLC => (67, 76, 67),
        Instruction::CLD => (67, 76, 68),
        Instruction::CLI => (67, 76, 73),
        Instruction::CLV => (67, 76, 86),
        Instruction::CMP => (67, 77, 80),
        Instruction::CPX => (67, 80, 88),
        Instruction::CPY => (67, 80, 89),
        Instruction::DEC => (68, 69, 67),
        Instruction::DEX => (68, 69, 88),
        Instruction::DEY => (68, 69, 89),
        Instruction::EOR => (69, 79, 82),
        Instruction::INC => (73, 78, 67),
        Instruction::INX => (73, 78, 88),
        Instruction::INY => (73, 78, 89),
        Instruction::JMP => (74, 77, 80),
        Instruction::JSR => (74, 83, 82),
        Instruction::LDA => (76, 68, 65),
        Instruction::LDX => (76, 68, 88),
        Instruction::LDY => (76, 68, 89),
        Instruction::LSR => (76, 83, 82),
        Instruction::NOP => (78, 79, 80),
        Instruction::ORA => (79, 82, 65),
        Instruction::PHA => (80, 72, 65),
        Instruction::PHP => (80, 72, 80),
        Instruction::PLA => (80, 76, 65),
        Instruction::PLP => (80, 76, 80),
        Instruction::ROL => (82, 79, 76),
        Instruction::ROR => (82, 79, 82),
        Instruction::RTI => (82, 84, 73),
        Instruction::RTS => (82, 84, 83),
        Instruction::SBC => (83, 66, 67),
        Instruction::SEC => (83, 69, 67),
        Instruction::SED => (83, 69, 68),
        Instruction::SEI => (83, 69, 73),
        Instruction::STA => (83, 84, 65),
        Instruction::STX => (83, 84, 88),
        Instruction::STY => (83, 84, 89),
        Instruction::TAX => (84, 65, 88),
        Instruction::TAY => (84, 65, 89),
        Instruction::TSX => (84, 83, 88),
        Instruction::TXA => (84, 88, 65),
        Instruction::TXS => (84, 88, 83),
        Instruction::TYA => (84, 89, 65),
    }
}

/// The number of operand bytes of an addressing mode.
pub open spec fn operand_len(mode: AddrMode) -> int {
    match mode {
        AddrMode::IMP => 0,
        AddrMode::ABS | AddrMode::ABSX | AddrMode::ABSY | AddrMode::IND => 2,
        _ => 1,
    }
}

/// An upper-case hexadecimal digit.
pub open spec fn hex_char(n: u8) -> u8 {
    if n < 10 { (0x30 + n) as u8 } else { (0x37 + n) as u8 }
}

/// Two upper-case hexadecimal digits.
pub open spec fn hex2(b: u8) -> Seq<u8> {
    seq![hex_char(b / 16), hex_char(b % 16)]
}

/// The operand text of an instruction with operand bytes `a0` (low) and `a1`.
pub open spec fn operand_text(ins: Instruction, mode: AddrMode, a0: u8, a1: u8) -> Seq<u8> {
    match mode {
        AddrMode::IMP => if ins == Instruction::ASL || ins == Instruction::LSR || ins == Instruction::ROL
            || ins == Instruction::ROR {
            seq![0x41u8]
        } else {
            Seq::empty()
        },
        AddrMode::ABS => seq![0x24u8] + hex2(a1) + hex2(a0),
        AddrMode::ZP | AddrMode::REL => seq![0x24u8] + hex2(a0),
        AddrMode::ZPX => seq![0x24u8] + hex2(a0) + seq![0x2Cu8, 0x58u8],
        AddrMode::ZPY => seq![0x24u8] + hex2(a0) + seq![0x2Cu8, 0x59u8],
        AddrMode::ABSX => seq![0x24u8] + hex2(a1) + hex2(a0) + seq![0x2Cu8, 0x58u8],
        AddrMode::ABSY => seq![0x24u8] + hex2(a1) + hex2(a0) + seq![0x2Cu8, 0x59u8],
        AddrMode::IMM => seq![0x23u8, 0x24u8] + hex2(a0),
        AddrMode::IND => seq![0x28u8, 0x24u8] + hex2(a1) + hex2(a0) + seq![0x29u8],
        AddrMode::INDX => seq![0x28u8, 0x24u8] + hex2(a0) + seq![0x2Cu8, 0x58u8, 0x29u8],
        AddrMode::INDY => seq![0x28u8, 0x24u8] + hex2(a0) + seq![0x29u8, 0x2Cu8, 0x59u8],
    }
}

/// One line of disassembly: the mnemonic, then a space and the operand if any.
pub open spec fn line_text(ins: Instruction, mode: AddrMode, a0: u8, a1: u8) -> Seq<u8> {
    let (c0, c1, c2) = name_spec(ins);
    let op = operand_text(ins, mode, a0, a1);
    seq![c0, c1, c2] + (if op.len() > 0 { seq![0x20u8] + op } else { Seq::empty() })
}

/// The lines of disassembly of a byte string, or `None` when it holds an
/// undocumented opcode or ends inside an instruction.
pub open spec fn disasm_lines(bin: Seq<u8>) -> Option<Seq<Seq<u8>>>
    decreases bin.len(),
{
    if bin.len() == 0 {
        Some(Seq::empty())
    } else {
        match opcode_info(bin[0]) {
            None => None,
            Some((ins, mode)) => {
                let n = operand_len(mode);
                if bin.len() < n + 1 {
                    None
                } else {
                    let a0 = if n >= 1 { bin[1] } else { 0u8 };
                    let a1 = if n >= 2 { bin[2] } else { 0u8 };
                    match disasm_lines(bin.subrange(n + 1, bin.len() as int)) {
                        None => None,
                        Some(rest) => Some(seq![line_text(ins, mode, a0, a1)] + rest),
                    }
                }
            },
        }
    }
}

/// Where disassembly fails, from the start of `bin`, and whether the cause is an
/// undocumented opcode (else the code ends inside an instruction).
pub open spec fn disasm_error(bin: Seq<u8>) -> (nat, bool)
    decreases bin.len(),
{
    if bin.len() == 0 {
        (0, true)
    } else {
        match opcode_info(bin[0]) {
            None => (0, true),
            Some((ins, mode)) => {
                let n = operand_len(mode);
                if bin.len() < n + 1 {
                    (0, false)
                } else {
                    let (p, k) = disasm_error(bin.subrange(n + 1, bin.len() as int));
                    ((p + n + 1) as nat, k)
                }
            },
        }
    }
}

/// The error text of a failed disassembly.
pub open spec fn byte_error(pos: nat, bad_opcode: bool) -> Seq<char> {
    "Error at byte "@ + decimal(pos) + (if bad_opcode { ": invalid opcode"@ } else { ": not enough arguments"@ })
}

/// Lines joined by newlines.
pub open spec fn join_lines(lines: Seq<Seq<u8>>) -> Seq<u8>
    decreases lines.len(),
{
    if lines.len() == 0 {
        Seq::empty()
    } else if lines.len() == 1 {
        lines[0]
    } else {
        lines[0] + seq![0x0Au8] + join_lines(lines.subrange(1, lines.len() as int))
    }
}

/// The characters of an ASCII byte string.
pub open spec fn ascii_chars(b: Seq<u8>) -> Seq<char> {
    Seq::new(b.len(), |i: int| b[i] as char)
}

/// Relies on `String::from_utf8`: ASCII bytes are valid UTF-8, one character per
/// byte.
#[verifier::external_body]
fn ascii_string(b: Vec<u8>) -> (r: String)
    requires
        forall|i: int| 0 <= i < b@.len() ==> b@[i] < 128,
    ensures
        r@ == ascii_chars(b@),
{
    String::from_utf8(b).unwrap()
}

fn hex_digit_char(n: u8) -> (r: u8)
    requires
        n < 16,
    ensures
        r == hex_char(n),
        r < 128,
{
    if n < 10 { 0x30 + n } else { 0x37 + n }
}

fn push_hex2(v: &mut Vec<u8>, b: u8)
    ensures
        final(v)@ == old(v)@ + hex2(b),
        forall|k: int| old(v)@.len() <= k < final(v)@.len() ==> final(v)@[k] < 128,
{
    v.push(hex_digit_char(b / 16));
    v.push(hex_digit_char(b % 16));
    assert(final(v)@ =~= old(v)@ + hex2(b));
}

fn push_line(v: &mut Vec<u8>, ins: Instruction, mode: AddrMode, a0: u8, a1: u8)
    ensures
        final(v)@ == old(v)@ + line_text(ins, mode, a0, a1),
        forall|k: int| old(v)@.len() <= k < final(v)@.len() ==> final(v)@[k] < 128,
{
    let ghost start = v@;
    let (c0, c1, c2) = name_of(ins);
    v.push(c0);
    v.push(c1);
    v.push(c2);
    let ghost named = v@;
    assert(named =~= start + seq![c0, c1, c2]);
    let has_op = match mode {
        AddrMode::IMP => matches!(ins, Instruction::ASL | Instruction::LSR | Instruction::ROL | Instruction::ROR),
        _ => true,
    };
    if has_op {
        v.push(0x20);
    }
    match mode {
        AddrMode::IMP => {
            if has_op {
                v.push(0x41);
            }
        },
        AddrMode::ABS => {
            v.push(0x24);
            push_hex2(v, a1);
            push_hex2(v, a0);
        },
        AddrMode::ZP | AddrMode::REL => {
            v.push(0x24);
            push_hex2(v, a0);
        },
        AddrMode::ZPX | AddrMode::ZPY => {
            v.push(0x24);
            push_hex2(v, a0);
            v.push(0x2C);
            v.push(if mode == AddrMode::ZPX { 0x58 } else { 0x59 });
        },
        AddrMode::ABSX | AddrMode::ABSY => {
            v.push(0x24);
            push_hex2(v, a1);
            push_hex2(v, a0);
            v.push(0x2C);
            v.push(if mode == AddrMode::ABSX { 0x58 } else { 0x59 });
        },
        AddrMode::IMM => {
            v.push(0x23);
            v.push(0x24);
            push_hex2(v, a0);
        },
        AddrMode::IND => {
            v.push(0x28);
            v.push(0x24);
            push_hex2(v, a1);
            push_hex2(v, a0);
            v.push(0x29);
        },
        AddrMode::INDX => {
            v.push(0x28);
            v.push(0x24);
            push_hex2(v, a0);
            v.push(0x2C);
            v.push(0x58);
            v.push(0x29);
        },
        AddrMode::INDY => {
            v.push(0x28);
            v.push(0x24);
            push_hex2(v, a0);
            v.push(0x29);
            v.push(0x2C);
            v.push(0x59);
        },
    }
    assert(v@ =~= start + line_text(ins, mode, a0, a1));
}

proof fn lemma_join_push(lines: Seq<Seq<u8>>, l: Seq<u8>)
    ensures
        join_lines(lines.push(l)) == join_lines(lines) + (if lines.len() > 0 { seq![0x0Au8] } else { Seq::empty() }) + l,
    decreases lines.len(),
{
    if lines.len() == 0 {
        assert(lines.push(l) =~= seq![l]);
        assert(join_lines(seq![l]) == l);
        assert(join_lines(lines) + Seq::<u8>::empty() + l =~= l);
    } else if lines.len() == 1 {
        assert(lines.push(l).subrange(1, 2) =~= seq![l]);
        assert(join_lines(seq![l]) == l);
        assert(lines.push(l)[0] == lines[0]);
        assert(join_lines(lines) == lines[0]);
    } else {
        let tail = lines.subrange(1, lines.len() as int);
        lemma_join_push(tail, l);
        assert(lines.push(l).subrange(1, (lines.len() + 1) as int) =~= tail.push(l));
        assert(join_lines(lines.push(l)) =~= join_lines(lines) + seq![0x0Au8] + l);
    }
}

fn position_error(pos: usize, bad_opcode: bool) -> (r: String)
    ensures
        r@ == byte_error(pos as nat, bad_opcode),
{
    let mut e = String::new();
    e.append("Error at byte ");
    append_decimal(&mut e, pos as u64);
    if bad_opcode {
        e.append(": invalid opcode");
    } else {
        e.append(": not enough arguments");
    }
    assert(e@ =~= byte_error(pos as nat, bad_opcode));
    e
}

/// Disassembles machine code, one instruction per line, operands in upper-case
/// hexadecimal. Fails exactly when the code holds an undocumented opcode or ends
/// inside an instruction.
pub fn disassemble(bin: &[u8]) -> (r: Result<String, String>)
    ensures
        r is Ok <==> disasm_lines(bin@) is Some,
        r matches Ok(s) ==> s@ == ascii_chars(join_lines(disasm_lines(bin@).unwrap())),
        r matches Err(e) ==> e@ == byte_error(disasm_error(bin@).0, disasm_error(bin@).1),
{
    let n = bin.len();
    let mut out: Vec<u8> = Vec::new();
    let ghost mut done: Seq<Seq<u8>> = Seq::empty();
    let mut i: usize = 0;
    let mut first = true;
    assert(bin@.subrange(0, n as int) =~= bin@);
    while i < n
        invariant
            n == bin@.len(),
            first == (done.len() == 0),
            i <= n,
            out@ == join_lines(done),
            forall|k: int| 0 <= k < out@.len() ==> out@[k] < 128,
            disasm_lines(bin@) == (match disasm_lines(bin@.subrange(i as int, n as int)) {
                None => None,
                Some(rest) => Some(done + rest),
            }),
            disasm_error(bin@) == ((disasm_error(bin@.subrange(i as int, n as int)).0 + i) as nat, disasm_error(
                bin@.subrange(i as int, n as int),
            ).1),
        decreases n - i,
    {
        let ghost rest_bytes = bin@.subrange(i as int, n as int);
        let (ins, mode) = match decode(bin[i]) {
            None => {
                return Err(position_error(i, true));
            },
            Some(x) => x,
        };
        let len: usize = match mode {
            AddrMode::IMP => 0,
            AddrMode::ABS | AddrMode::ABSX | AddrMode::ABSY | AddrMode::IND => 2,
            _ => 1,
        };
        if n - i < len + 1 {
            return Err(position_error(i, false));
        }
        let a0 = if len >= 1 { bin[i + 1] } else { 0 };
        let a1 = if len >= 2 { bin[i + 2] } else { 0 };
        let ghost line = line_text(ins, mode, a0, a1);
        assert(rest_bytes.subrange(len + 1, rest_bytes.len() as int) =~= bin@.subrange(i + len + 1, n as int));
        proof {
            lemma_join_push(done, line);
        }
        if !first {
            out.push(0x0A);
        }
        first = false;
        push_line(&mut out, ins, mode, a0, a1);
        proof {
            assert(out@ =~= join_lines(done.push(line)));
            match disasm_lines(bin@.subrange(i + len + 1, n as int)) {
                None => {},
                Some(rest) => {
                    assert(done + (seq![line] + rest) =~= done.push(line) + rest);
                },
            }
            done = done.push(line);
        }
        i = i + len + 1;
    }
    assert(bin@.subrange(n as int, n as int) =~= Seq::<u8>::empty());
    assert(done + Seq::<Seq<u8>>::empty() =~= done);
    Ok(ascii_string(out))
}

} // verus!
