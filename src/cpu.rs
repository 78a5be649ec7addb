//! The 6502-derived CPU: registers, addressing modes, instruction semantics and
//! the fetch-decode-execute loop.
use crate::bus::{
    after_read, after_read_word, after_write, lemma_read_keeps_memory,
    lemma_read_word_keeps_memory, lemma_wram_read, lemma_wram_write, lemma_write_keeps_cycles,
    read_value, read_word_value, tick_bus, Bus, BusError, BusView, OAM_DMA,
};
use crate::opcode::{decode, opcode_of, Instruction, Opcode};
use crate::ppu::PpuView;
use vstd::prelude::*;

verus! {

/// Carry.
pub const FLAG_C: u8 = 0b0000_0001;

/// Zero.
pub const FLAG_Z: u8 = 0b0000_0010;

/// IRQ disable.
pub const FLAG_I: u8 = 0b0000_0100;

/// Decimal mode.
pub const FLAG_D: u8 = 0b0000_1000;

/// Break: present only on pushed copies of the status.
pub const FLAG_B: u8 = 0b0001_0000;

/// Reserved: always reads 1.
pub const FLAG_R: u8 = 0b0010_0000;

/// Overflow.
pub const FLAG_V: u8 = 0b0100_0000;

/// Negative.
pub const FLAG_N: u8 = 0b1000_0000;

/// Where the stack page starts.
pub const STACK_BASE: u16 = 0x0100;

/// The reset vector.
pub const RESET_VECTOR: u16 = 0xfffc;

/// The NMI vector.
pub const NMI_VECTOR: u16 = 0xfffa;

/// The stack pointer after reset.
pub const DEFAULT_SP: u8 = 0xfd;

/// The status after reset: R and I.
pub const DEFAULT_P: u8 = 0x24;

/// How many instructions `run` executes at most.
pub const RUN_LIMIT: u64 = 0xffff_ffff_ffff_ffff;

#[derive(Debug, Clone, Copy, PartialEq, Eq, Structural)]
pub enum AddressingMode {
    Accumulator,
    Immediate,
    ZeroPage,
    ZeroPageX,
    ZeroPageY,
    Relative,
    Absolute,
    AbsoluteX,
    AbsoluteY,
    Indirect,
    IndirectX,
    IndirectY,
    NoneAddressing,
}

/// Why execution stopped with an error.
#[derive(Debug, Clone, Copy, PartialEq, Eq, Structural)]
pub enum CpuError {
    /// The byte at `pc` is no instruction.
    UnknownOpcode { opcode: u8, pc: u16 },
    /// The instruction at `pc` tried to write program ROM at `address`.
    WriteToRom { address: u16, pc: u16 },
    /// A callback left the machine in a state it cannot run from.
    InvalidState,
    /// `RUN_LIMIT` instructions ran without reaching BRK.
    StepLimitReached,
}

/// How an instruction ended.
#[derive(Debug, Clone, Copy, PartialEq, Eq, Structural)]
pub enum StepOutcome {
    Running,
    /// BRK was executed: the run loop stops here.
    Halted,
}

/// The status byte with `mask` set or cleared; bit 5 always reads 1.
pub open spec fn with_flag(p: u8, mask: u8, on: bool) -> u8 {
    (if on { p | mask } else { p & !mask }) | FLAG_R
}

/// Whether the single bit `mask` is set in `p`.
pub open spec fn flag(p: u8, mask: u8) -> bool {
    p & mask == mask
}

/// The status register: eight flag bits, of which bit 5 always reads 1.
#[derive(Clone, Copy, Debug)]
pub struct StatusRegister {
    bits: u8,
}

impl View for StatusRegister {
    type V = u8;

    closed spec fn view(&self) -> u8 {
        self.bits | FLAG_R
    }
}

impl StatusRegister {
    #[allow(non_upper_case_globals)]
    pub const n: u8 = FLAG_N;

    #[allow(non_upper_case_globals)]
    pub const v: u8 = FLAG_V;

    #[allow(non_upper_case_globals)]
    pub const r: u8 = FLAG_R;

    #[allow(non_upper_case_globals)]
    pub const b: u8 = FLAG_B;

    #[allow(non_upper_case_globals)]
    pub const d: u8 = FLAG_D;

    #[allow(non_upper_case_globals)]
    pub const i: u8 = FLAG_I;

    #[allow(non_upper_case_globals)]
    pub const z: u8 = FLAG_Z;

    #[allow(non_upper_case_globals)]
    pub const c: u8 = FLAG_C;

    /// The status as a byte.
    pub fn bits(&self) -> (r: u8)
        ensures
            r == self@,
    {
        self.bits | FLAG_R
    }

    /// A status holding `bits` (bit 5 reads 1 regardless).
    pub fn from_bits(bits: u8) -> (r: Option<StatusRegister>)
        ensures
            r matches Some(s) && s@ == bits | FLAG_R,
    {
        Some(StatusRegister { bits })
    }

    /// Whether every bit of `flags` is set.
    pub fn contains(&self, flags: u8) -> (r: bool)
        ensures
            r == (self@ & flags == flags),
    {
        (self.bits | FLAG_R) & flags == flags
    }

    pub fn insert(&mut self, flags: u8)
        ensures
            final(self)@ == with_flag(old(self)@, flags, true),
    {
        let b = self.bits;
        assert((b | flags) | 0x20u8 == ((b | 0x20u8) | flags) | 0x20u8) by (bit_vector);
        self.bits = self.bits | flags;
    }

    pub fn remove(&mut self, flags: u8)
        ensures
            final(self)@ == with_flag(old(self)@, flags, false),
    {
        let b = self.bits;
        assert((b & !flags) | 0x20u8 == ((b | 0x20u8) & !flags) | 0x20u8) by (bit_vector);
        self.bits = self.bits & !flags;
    }

    pub fn set(&mut self, flags: u8, value: bool)
        ensures
            final(self)@ == with_flag(old(self)@, flags, value),
    {
        if value {
            self.insert(flags);
        } else {
            self.remove(flags);
        }
    }
}

impl Default for StatusRegister {
    /// R and I set.
    fn default() -> (r: Self)
        ensures
            r@ == DEFAULT_P,
    {
        assert(0x24u8 | 0x20u8 == 0x24u8) by (bit_vector);
        StatusRegister { bits: DEFAULT_P }
    }
}

/// The register file as plain values.
pub struct Registers {
    pub a: u8,
    pub x: u8,
    pub y: u8,
    pub p: u8,
    pub sp: u8,
    pub pc: u16,
}

pub struct CpuRegister {
    /// Accumulator
    pub a: u8,
    /// Index register X
    pub x: u8,
    /// Index register Y
    pub y: u8,
    /// Processor status
    pub p: StatusRegister,
    /// Stack pointer
    pub sp: u8,
    /// Program counter
    pub pc: u16,
}

impl View for CpuRegister {
    type V = Registers;

    open spec fn view(&self) -> Registers {
        Registers { a: self.a, x: self.x, y: self.y, p: self.p@, sp: self.sp, pc: self.pc }
    }
}

/// The registers after reset, with the program counter still 0.
pub open spec fn reset_registers() -> Registers {
    Registers { a: 0, x: 0, y: 0, p: DEFAULT_P, sp: DEFAULT_SP, pc: 0 }
}

impl CpuRegister {
    pub fn new() -> (r: Self)
        ensures
            r@ == reset_registers(),
    {
        CpuRegister { a: 0, x: 0, y: 0, p: StatusRegister::default(), sp: DEFAULT_SP, pc: 0 }
    }
}

impl Default for CpuRegister {
    fn default() -> (r: Self)
        ensures
            r@ == reset_registers(),
    {
        CpuRegister::new()
    }
}

// ---------------------------------------------------------------------------
// Instruction semantics on the register file

pub open spec fn wadd8(a: u8, b: int) -> u8 {
    ((a + b + 256) % 256) as u8
}

pub open spec fn wsub8(a: u8, b: u8) -> u8 {
    ((a - b + 256) % 256) as u8
}

pub open spec fn wadd16(a: u16, b: int) -> u16 {
    ((a + b + 0x10000) % 0x10000) as u16
}

/// Z and N set from `v`.
pub open spec fn zn(p: u8, v: u8) -> u8 {
    with_flag(with_flag(p, FLAG_Z, v == 0), FLAG_N, v >= 0x80)
}

pub open spec fn load_a(r: Registers, v: u8) -> Registers {
    Registers { a: v, p: zn(r.p, v), ..r }
}

pub open spec fn load_x(r: Registers, v: u8) -> Registers {
    Registers { x: v, p: zn(r.p, v), ..r }
}

pub open spec fn load_y(r: Registers, v: u8) -> Registers {
    Registers { y: v, p: zn(r.p, v), ..r }
}

pub open spec fn carry(p: u8) -> int {
    if flag(p, FLAG_C) { 1 } else { 0 }
}

/// `tmp = A + M + C`; C = tmp > 0xFF; V from the signs of A, M and the result.
pub open spec fn adc_spec(r: Registers, m: u8) -> Registers {
    let tmp = r.a + m + carry(r.p);
    let res = (tmp % 256) as u8;
    let with_zn = zn(r.p, res);
    let with_c = with_flag(with_zn, FLAG_C, tmp > 0xff);
    let with_v = with_flag(with_c, FLAG_V, (r.a ^ res) & (m ^ res) & 0x80 != 0);
    Registers { a: res, p: with_v, ..r }
}

/// ADC of the operand's complement.
pub open spec fn sbc_spec(r: Registers, m: u8) -> Registers {
    adc_spec(r, (255 - m) as u8)
}

/// C = reg >= M; N and Z from reg - M.
pub open spec fn compare_spec(r: Registers, reg: u8, m: u8) -> Registers {
    Registers { p: zn(with_flag(r.p, FLAG_C, reg >= m), wsub8(reg, m)), ..r }
}

/// Z = (A & M) == 0; V = bit 6 of M; N = bit 7 of M.
pub open spec fn bit_spec(r: Registers, m: u8) -> Registers {
    let with_z = with_flag(r.p, FLAG_Z, r.a & m == 0);
    let with_v = with_flag(with_z, FLAG_V, m & 0x40 != 0);
    Registers { p: with_flag(with_v, FLAG_N, m & 0x80 != 0), ..r }
}

pub open spec fn asl_spec(r: Registers, m: u8) -> (u8, Registers) {
    let res = ((m % 128) * 2) as u8;
    (res, Registers { p: zn(with_flag(r.p, FLAG_C, m >= 0x80), res), ..r })
}

pub open spec fn lsr_spec(r: Registers, m: u8) -> (u8, Registers) {
    let res = m / 2;
    (res, Registers { p: zn(with_flag(r.p, FLAG_C, m % 2 == 1), res), ..r })
}

pub open spec fn rol_spec(r: Registers, m: u8) -> (u8, Registers) {
    let res = ((m % 128) * 2 + carry(r.p)) as u8;
    (res, Registers { p: zn(with_flag(r.p, FLAG_C, m >= 0x80), res), ..r })
}

pub open spec fn ror_spec(r: Registers, m: u8) -> (u8, Registers) {
    let res = (m / 2 + 128 * carry(r.p)) as u8;
    (res, Registers { p: zn(with_flag(r.p, FLAG_C, m % 2 == 1), res), ..r })
}

pub open spec fn inc_spec(r: Registers, m: u8) -> (u8, Registers) {
    let res = wadd8(m, 1);
    (res, Registers { p: zn(r.p, res), ..r })
}

pub open spec fn dec_spec(r: Registers, m: u8) -> (u8, Registers) {
    let res = wsub8(m, 1);
    (res, Registers { p: zn(r.p, res), ..r })
}

/// AND, then shift A right.
pub open spec fn alr_spec(r: Registers, m: u8) -> Registers {
    let r1 = load_a(r, r.a & m);
    let (res, r2) = lsr_spec(r1, r1.a);
    Registers { a: res, ..r2 }
}

/// AND, then C = N.
pub open spec fn anc_spec(r: Registers, m: u8) -> Registers {
    let r1 = load_a(r, r.a & m);
    Registers { p: with_flag(r1.p, FLAG_C, flag(r1.p, FLAG_N)), ..r1 }
}

/// AND, then rotate A right; C is bit 6 of the result, V is bit 6 XOR bit 5.
pub open spec fn arr_spec(r: Registers, m: u8) -> Registers {
    let r1 = load_a(r, r.a & m);
    let res = (r1.a / 2 + 128 * carry(r1.p)) as u8;
    let bit6 = res & 0x40 != 0;
    let bit5 = res & 0x20 != 0;
    let with_c = with_flag(r1.p, FLAG_C, bit6);
    let with_v = with_flag(with_c, FLAG_V, bit6 != bit5);
    Registers { a: res, p: zn(with_v, res), ..r1 }
}

/// X = (A & X) - M, with C = (A & X) >= M.
pub open spec fn axs_spec(r: Registers, m: u8) -> Registers {
    let ax = r.a & r.x;
    let res = wsub8(ax, m);
    Registers { x: res, p: zn(with_flag(r.p, FLAG_C, ax >= m), res), ..r }
}

/// Load A, then copy it into X.
pub open spec fn lax_spec(r: Registers, m: u8) -> Registers {
    load_x(load_a(r, m), m)
}

/// The status as PLP and RTI load it: B cleared, R set.
pub open spec fn pulled_status(v: u8) -> u8 {
    (v & !FLAG_B) | FLAG_R
}

/// The groups of instructions that share a shape of execution.
#[derive(Debug, Clone, Copy, PartialEq, Eq, Structural)]
pub enum Kind {
    /// read the operand, then change registers
    Read,
    /// write a register value to the operand address
    Store,
    /// read, change and write back the operand (or A)
    Modify,
    /// registers only
    Implied,
    Branch,
    Jump,
    Call,
    Return,
    ReturnFromInterrupt,
    PushA,
    PushP,
    PullA,
    PullP,
    Break,
}

pub open spec fn kind_of(ins: Instruction) -> Kind {
    match ins {
        Instruction::ADC | Instruction::AND | Instruction::BIT | Instruction::CMP
        | Instruction::CPX | Instruction::CPY | Instruction::EOR | Instruction::LDA
        | Instruction::LDX | Instruction::LDY | Instruction::ORA | Instruction::SBC
        | Instruction::LAX | Instruction::ALR | Instruction::ANC | Instruction::ARR
        | Instruction::AXS | Instruction::SKB | Instruction::IGN => Kind::Read,
        Instruction::STA | Instruction::STX | Instruction::STY | Instruction::SAX => Kind::Store,
        Instruction::ASL | Instruction::LSR | Instruction::ROL | Instruction::ROR
        | Instruction::INC | Instruction::DEC | Instruction::DCP | Instruction::ISC
        | Instruction::RLA | Instruction::RRA | Instruction::SLO | Instruction::SRE => Kind::Modify,
        Instruction::BCC | Instruction::BCS | Instruction::BEQ | Instruction::BMI
        | Instruction::BNE | Instruction::BPL | Instruction::BVC | Instruction::BVS => Kind::Branch,
        Instruction::JMP => Kind::Jump,
        Instruction::JSR => Kind::Call,
        Instruction::RTS => Kind::Return,
        Instruction::RTI => Kind::ReturnFromInterrupt,
        Instruction::PHA => Kind::PushA,
        Instruction::PHP => Kind::PushP,
        Instruction::PLA => Kind::PullA,
        Instruction::PLP => Kind::PullP,
        Instruction::BRK => Kind::Break,
        _ => Kind::Implied,
    }
}

/// What a read-kind instruction does with its operand.
#[verifier::opaque]
pub open spec fn read_op(ins: Instruction, r: Registers, m: u8) -> Registers {
    match ins {
        Instruction::ADC => adc_spec(r, m),
        Instruction::AND => load_a(r, r.a & m),
        Instruction::BIT => bit_spec(r, m),
        Instruction::CMP => compare_spec(r, r.a, m),
        Instruction::CPX => compare_spec(r, r.x, m),
        Instruction::CPY => compare_spec(r, r.y, m),
        Instruction::EOR => load_a(r, r.a ^ m),
        Instruction::LDA => load_a(r, m),
        Instruction::LDX => load_x(r, m),
        Instruction::LDY => load_y(r, m),
        Instruction::ORA => load_a(r, r.a | m),
        Instruction::SBC => sbc_spec(r, m),
        Instruction::LAX => lax_spec(r, m),
        Instruction::ALR => alr_spec(r, m),
        Instruction::ANC => anc_spec(r, m),
        Instruction::ARR => arr_spec(r, m),
        Instruction::AXS => axs_spec(r, m),
        _ => r,
    }
}

/// The byte a store-kind instruction writes.
pub open spec fn store_value(ins: Instruction, r: Registers) -> u8 {
    match ins {
        Instruction::STA => r.a,
        Instruction::STX => r.x,
        Instruction::STY => r.y,
        _ => r.a & r.x,
    }
}

/// The new operand and registers of a modify-kind instruction.
#[verifier::opaque]
pub open spec fn modify_op(ins: Instruction, r: Registers, m: u8) -> (u8, Registers) {
    match ins {
        Instruction::ASL | Instruction::SLO => asl_spec(r, m),
        Instruction::LSR | Instruction::SRE => lsr_spec(r, m),
        Instruction::ROL | Instruction::RLA => rol_spec(r, m),
        Instruction::ROR | Instruction::RRA => ror_spec(r, m),
        Instruction::INC | Instruction::ISC => inc_spec(r, m),
        _ => dec_spec(r, m),
    }
}

/// What the combined instructions do with the written-back operand.
#[verifier::opaque]
pub open spec fn follow_op(ins: Instruction, r: Registers, m: u8) -> Registers {
    match ins {
        Instruction::DCP => compare_spec(r, r.a, m),
        Instruction::ISC => sbc_spec(r, m),
        Instruction::RLA => load_a(r, r.a & m),
        Instruction::RRA => adc_spec(r, m),
        Instruction::SLO => load_a(r, r.a | m),
        Instruction::SRE => load_a(r, r.a ^ m),
        _ => r,
    }
}

/// What an implied-kind instruction does.
pub open spec fn implied_op(ins: Instruction, r: Registers) -> Registers {
    match ins {
        Instruction::CLC => Registers { p: with_flag(r.p, FLAG_C, false), ..r },
        Instruction::CLD => Registers { p: with_flag(r.p, FLAG_D, false), ..r },
        Instruction::CLI => Registers { p: with_flag(r.p, FLAG_I, false), ..r },
        Instruction::CLV => Registers { p: with_flag(r.p, FLAG_V, false), ..r },
        Instruction::SEC => Registers { p: with_flag(r.p, FLAG_C, true), ..r },
        Instruction::SED => Registers { p: with_flag(r.p, FLAG_D, true), ..r },
        Instruction::SEI => Registers { p: with_flag(r.p, FLAG_I, true), ..r },
        Instruction::TAX => load_x(r, r.a),
        Instruction::TAY => load_y(r, r.a),
        Instruction::TSX => load_x(r, r.sp),
        Instruction::TXA => load_a(r, r.x),
        Instruction::TXS => Registers { sp: r.x, ..r },
        Instruction::TYA => load_a(r, r.y),
        Instruction::INX => load_x(r, wadd8(r.x, 1)),
        Instruction::INY => load_y(r, wadd8(r.y, 1)),
        Instruction::DEX => load_x(r, wsub8(r.x, 1)),
        Instruction::DEY => load_y(r, wsub8(r.y, 1)),
        _ => r,
    }
}

/// Whether a branch instruction is taken under status `p`.
pub open spec fn branch_taken(ins: Instruction, p: u8) -> bool {
    match ins {
        Instruction::BCC => !flag(p, FLAG_C),
        Instruction::BCS => flag(p, FLAG_C),
        Instruction::BEQ => flag(p, FLAG_Z),
        Instruction::BNE => !flag(p, FLAG_Z),
        Instruction::BMI => flag(p, FLAG_N),
        Instruction::BPL => !flag(p, FLAG_N),
        Instruction::BVS => flag(p, FLAG_V),
        _ => !flag(p, FLAG_V),
    }
}

/// An 8-bit branch offset, sign-extended.
pub open spec fn signed_offset(m: u8) -> int {
    if m >= 0x80 { m - 256 } else { m as int }
}

// ---------------------------------------------------------------------------
// The machine: registers and bus

/// The CPU and everything it owns, as plain values.
pub struct CpuView {
    pub reg: Registers,
    pub bus: BusView,
}

/// A read of `a`: the byte and the machine after it.
pub open spec fn rd(s: CpuView, a: u16) -> (u8, CpuView) {
    (read_value(s.bus, a), CpuView { bus: after_read(s.bus, a), ..s })
}

/// A word read from `a`, low byte first.
pub open spec fn rd_word(s: CpuView, a: u16) -> (u16, CpuView) {
    (read_word_value(s.bus, a), CpuView { bus: after_read_word(s.bus, a), ..s })
}

/// A write of `v` to `a` (below 0x8000).
pub open spec fn wr(s: CpuView, a: u16, v: u8) -> CpuView {
    CpuView { bus: after_write(s.bus, a, v), ..s }
}

pub open spec fn with_regs(s: CpuView, r: Registers) -> CpuView {
    CpuView { reg: r, ..s }
}

/// Push: write at 0x0100 + SP, then decrement SP.
pub open spec fn push_spec(s: CpuView, v: u8) -> CpuView {
    let s1 = wr(s, (STACK_BASE + s.reg.sp) as u16, v);
    with_regs(s1, Registers { sp: wsub8(s.reg.sp, 1), ..s1.reg })
}

/// Pop: increment SP, then read at 0x0100 + SP.
pub open spec fn pop_spec(s: CpuView) -> (u8, CpuView) {
    let sp = wadd8(s.reg.sp, 1);
    rd(with_regs(s, Registers { sp, ..s.reg }), (STACK_BASE + sp) as u16)
}

/// Push a word: high byte first.
pub open spec fn push_word_spec(s: CpuView, v: u16) -> CpuView {
    push_spec(push_spec(s, (v / 256) as u8), (v % 256) as u8)
}

/// Pop a word: low byte first.
pub open spec fn pop_word_spec(s: CpuView) -> (u16, CpuView) {
    let (lo, s1) = pop_spec(s);
    let (hi, s2) = pop_spec(s1);
    ((lo + 256 * hi) as u16, s2)
}

/// Zero page plus `index`, wrapping within the zero page.
pub open spec fn zero_page_indexed_spec(s: CpuView, index: u8) -> (u16, CpuView) {
    let (b, s1) = rd(s, s.reg.pc);
    (wadd8(b, index as int) as u16, s1)
}

/// An absolute address plus `index`, wrapping modulo 0x10000.
pub open spec fn absolute_indexed_spec(s: CpuView, index: u8) -> (u16, CpuView) {
    let (w, s1) = rd_word(s, s.reg.pc);
    (wadd16(w, index as int), s1)
}

/// JMP's pointer: a pointer ending in 0xFF takes its high byte from the start of
/// the same page.
pub open spec fn indirect_spec(s: CpuView) -> (u16, CpuView) {
    let (ptr, s1) = rd_word(s, s.reg.pc);
    if ptr % 256 == 0xff {
        let (lo, s2) = rd(s1, ptr);
        let (hi, s3) = rd(s2, (ptr - 0xff) as u16);
        ((lo + 256 * hi) as u16, s3)
    } else {
        rd_word(s1, ptr)
    }
}

/// The word at zero page (operand + X); both bytes within the zero page.
pub open spec fn indexed_indirect_spec(s: CpuView) -> (u16, CpuView) {
    let (b, s1) = rd(s, s.reg.pc);
    let base = wadd8(b, s.reg.x as int);
    let (lo, s2) = rd(s1, base as u16);
    let (hi, s3) = rd(s2, wadd8(base, 1) as u16);
    ((lo + 256 * hi) as u16, s3)
}

/// The word at zero page (operand), plus Y modulo 0x10000.
pub open spec fn indirect_indexed_spec(s: CpuView) -> (u16, CpuView) {
    let (b, s1) = rd(s, s.reg.pc);
    let (lo, s2) = rd(s1, b as u16);
    let (hi, s3) = rd(s2, wadd8(b, 1) as u16);
    (wadd16((lo + 256 * hi) as u16, s.reg.y as int), s3)
}

/// The effective address of the operand at PC, and the machine after the reads
/// that found it. Immediate and relative operands are at PC itself.
pub open spec fn operand_address(s: CpuView, mode: AddressingMode) -> (u16, CpuView) {
    let pc = s.reg.pc;
    match mode {
        AddressingMode::ZeroPage => {
            let (b, s1) = rd(s, pc);
            (b as u16, s1)
        },
        AddressingMode::ZeroPageX => zero_page_indexed_spec(s, s.reg.x),
        AddressingMode::ZeroPageY => zero_page_indexed_spec(s, s.reg.y),
        AddressingMode::Absolute => rd_word(s, pc),
        AddressingMode::AbsoluteX => absolute_indexed_spec(s, s.reg.x),
        AddressingMode::AbsoluteY => absolute_indexed_spec(s, s.reg.y),
        AddressingMode::Indirect => indirect_spec(s),
        AddressingMode::IndirectX => indexed_indirect_spec(s),
        AddressingMode::IndirectY => indirect_indexed_spec(s),
        _ => (pc, s),
    }
}

/// The machine after `n` CPU cycles.
pub open spec fn tick_cpu(s: CpuView, n: int) -> CpuView {
    CpuView { bus: tick_bus(s.bus, n), ..s }
}

/// The end of an instruction that does not jump: PC moves past the operand and the
/// cycles are counted.
pub open spec fn finish(s: CpuView, op: Opcode) -> (Result<StepOutcome, CpuError>, CpuView) {
    (
        Ok(StepOutcome::Running),
        tick_cpu(
            with_regs(s, Registers { pc: wadd16(s.reg.pc, op.bytes - 1), ..s.reg }),
            op.cycles as int,
        ),
    )
}

/// The end of an instruction that sets PC itself.
pub open spec fn jump_to(s: CpuView, target: u16, op: Opcode) -> (
    Result<StepOutcome, CpuError>,
    CpuView,
) {
    (Ok(StepOutcome::Running), tick_cpu(with_regs(s, Registers { pc: target, ..s.reg }), op.cycles as int))
}

/// One instruction `op`, fetched from `at`, with PC already past the opcode byte.
#[verifier::opaque]
pub open spec fn execute_spec(s: CpuView, op: Opcode, at: u16) -> (
    Result<StepOutcome, CpuError>,
    CpuView,
) {
    let ins = op.instruction;
    let mode = op.addressing_mode;
    match kind_of(ins) {
        Kind::Read => {
            let (a, s1) = operand_address(s, mode);
            let (m, s2) = rd(s1, a);
            finish(with_regs(s2, read_op(ins, s2.reg, m)), op)
        },
        Kind::Store => {
            let (a, s1) = operand_address(s, mode);
            if a >= 0x8000 {
                (Err(CpuError::WriteToRom { address: a, pc: at }), s1)
            } else {
                finish(wr(s1, a, store_value(ins, s1.reg)), op)
            }
        },
        Kind::Modify => {
            if mode == AddressingMode::Accumulator {
                let (res, r1) = modify_op(ins, s.reg, s.reg.a);
                finish(with_regs(s, Registers { a: res, ..r1 }), op)
            } else {
                let (a, s1) = operand_address(s, mode);
                let (m, s2) = rd(s1, a);
                let (res, r1) = modify_op(ins, s2.reg, m);
                let s3 = with_regs(s2, r1);
                if a >= 0x8000 {
                    (Err(CpuError::WriteToRom { address: a, pc: at }), s3)
                } else {
                    let s4 = wr(s3, a, res);
                    finish(with_regs(s4, follow_op(ins, s4.reg, res)), op)
                }
            }
        },
        Kind::Implied => finish(with_regs(s, implied_op(ins, s.reg)), op),
        Kind::Branch => {
            let (m, s1) = rd(s, s.reg.pc);
            let target = if branch_taken(ins, s1.reg.p) {
                wadd16(s1.reg.pc, signed_offset(m))
            } else {
                s1.reg.pc
            };
            finish(with_regs(s1, Registers { pc: target, ..s1.reg }), op)
        },
        Kind::Jump => {
            let (a, s1) = operand_address(s, mode);
            jump_to(s1, a, op)
        },
        Kind::Call => {
            let s1 = push_word_spec(s, wadd16(s.reg.pc, 1));
            let (a, s2) = operand_address(s1, mode);
            jump_to(s2, a, op)
        },
        Kind::Return => {
            let (w, s1) = pop_word_spec(s);
            jump_to(s1, wadd16(w, 1), op)
        },
        Kind::ReturnFromInterrupt => {
            let (v, s1) = pop_spec(s);
            let s2 = with_regs(s1, Registers { p: pulled_status(v), ..s1.reg });
            let (w, s3) = pop_word_spec(s2);
            jump_to(s3, w, op)
        },
        Kind::PushA => finish(push_spec(s, s.reg.a), op),
        Kind::PushP => finish(push_spec(s, s.reg.p | FLAG_B | FLAG_R), op),
        Kind::PullA => {
            let (v, s1) = pop_spec(s);
            finish(with_regs(s1, load_a(s1.reg, v)), op)
        },
        Kind::PullP => {
            let (v, s1) = pop_spec(s);
            finish(with_regs(s1, Registers { p: pulled_status(v), ..s1.reg }), op)
        },
        Kind::Break => (Ok(StepOutcome::Halted), tick_cpu(s, op.cycles as int)),
    }
}

/// NMI service: push PC and the status (B clear, R set), set I, count two cycles
/// and load PC from the NMI vector.
pub open spec fn nmi_spec(s: CpuView) -> CpuView {
    let s1 = push_word_spec(s, s.reg.pc);
    let s2 = push_spec(s1, pulled_status(s.reg.p));
    let s3 = with_regs(s2, Registers { p: with_flag(s2.reg.p, FLAG_I, true), ..s2.reg });
    let s4 = tick_cpu(s3, 2);
    let (pc, s5) = rd_word(s4, NMI_VECTOR);
    with_regs(s5, Registers { pc, ..s5.reg })
}

/// The machine with the PPU's NMI latch cleared.
pub open spec fn consume_nmi(s: CpuView) -> CpuView {
    CpuView { bus: BusView { ppu: PpuView { nmi: false, ..s.bus.ppu }, ..s.bus }, ..s }
}

/// One step: service a pending NMI, then fetch, decode and execute one instruction.
pub open spec fn step_spec(s: CpuView) -> (Result<StepOutcome, CpuError>, CpuView) {
    let s0 = if s.bus.ppu.nmi { nmi_spec(consume_nmi(s)) } else { consume_nmi(s) };
    let at = s0.reg.pc;
    let (code, s1) = rd(s0, at);
    let s2 = with_regs(s1, Registers { pc: wadd16(at, 1), ..s1.reg });
    match opcode_of(code) {
        None => (Err(CpuError::UnknownOpcode { opcode: code, pc: at }), s2),
        Some(op) => execute_spec(s2, op, at),
    }
}

/// Up to `fuel` steps, stopping at BRK or at an error; running out of steps is an
/// error of its own.
pub open spec fn run_spec(s: CpuView, fuel: nat) -> (Result<(), CpuError>, CpuView)
    decreases fuel,
{
    if fuel == 0 {
        (Err(CpuError::StepLimitReached), s)
    } else {
        let (r, s1) = step_spec(s);
        match r {
            Ok(StepOutcome::Running) => run_spec(s1, (fuel - 1) as nat),
            Ok(StepOutcome::Halted) => (Ok(()), s1),
            Err(e) => (Err(e), s1),
        }
    }
}

// ---------------------------------------------------------------------------
// Executable CPU

pub struct Cpu {
    pub register: CpuRegister,
    pub bus: Bus,
}

impl View for Cpu {
    type V = CpuView;

    open spec fn view(&self) -> CpuView {
        CpuView { reg: self.register@, bus: self.bus@ }
    }
}

/// `pc` moved by the sign-extended `offset`, modulo 0x10000.
fn branch_target(pc: u16, offset: u8) -> (r: u16)
    ensures
        r == wadd16(pc, signed_offset(offset)),
{
    if offset >= 0x80 {
        pc.wrapping_sub(256 - offset as u16)
    } else {
        pc.wrapping_add(offset as u16)
    }
}

/// Which kind an instruction is.
fn kind(ins: Instruction) -> (r: Kind)
    ensures
        r == kind_of(ins),
{
    match ins {
        Instruction::ADC | Instruction::AND | Instruction::BIT | Instruction::CMP
        | Instruction::CPX | Instruction::CPY | Instruction::EOR | Instruction::LDA
        | Instruction::LDX | Instruction::LDY | Instruction::ORA | Instruction::SBC
        | Instruction::LAX | Instruction::ALR | Instruction::ANC | Instruction::ARR
        | Instruction::AXS | Instruction::SKB | Instruction::IGN => Kind::Read,
        Instruction::STA | Instruction::STX | Instruction::STY | Instruction::SAX => Kind::Store,
        Instruction::ASL | Instruction::LSR | Instruction::ROL | Instruction::ROR
        | Instruction::INC | Instruction::DEC | Instruction::DCP | Instruction::ISC
        | Instruction::RLA | Instruction::RRA | Instruction::SLO | Instruction::SRE => Kind::Modify,
        Instruction::BCC | Instruction::BCS | Instruction::BEQ | Instruction::BMI
        | Instruction::BNE | Instruction::BPL | Instruction::BVC | Instruction::BVS => Kind::Branch,
        Instruction::JMP => Kind::Jump,
        Instruction::JSR => Kind::Call,
        Instruction::RTS => Kind::Return,
        Instruction::RTI => Kind::ReturnFromInterrupt,
        Instruction::PHA => Kind::PushA,
        Instruction::PHP => Kind::PushP,
        Instruction::PLA => Kind::PullA,
        Instruction::PLP => Kind::PullP,
        Instruction::BRK => Kind::Break,
        _ => Kind::Implied,
    }
}

impl Cpu {
    pub open spec fn wf(&self) -> bool {
        self.bus.wf()
    }

    /// A CPU over `bus`, reset: PC comes from the word at 0xFFFC.
    pub fn new(bus: Bus) -> (r: Cpu)
        requires
            bus.wf(),
        ensures
            r.wf(),
            r@ == (CpuView {
                reg: Registers { pc: read_word_value(bus@, RESET_VECTOR), ..reset_registers() },
                bus: after_read_word(bus@, RESET_VECTOR),
            }),
    {
        let mut cpu = Cpu { register: CpuRegister::new(), bus };
        cpu.register.pc = cpu.read_memory_word(RESET_VECTOR);
        cpu
    }

    /// Checks, at run time, what `wf` states.
    pub fn is_well_formed(&self) -> (r: bool)
        ensures
            r == self.wf(),
    {
        self.bus.is_well_formed()
    }

    pub fn read_memory_byte(&mut self, address: u16) -> (r: u8)
        requires
            old(self).wf(),
        ensures
            final(self).wf(),
            (r, final(self)@) == rd(old(self)@, address),
    {
        self.bus.read_memory_byte(address)
    }

    pub fn read_memory_word(&mut self, address: u16) -> (r: u16)
        requires
            old(self).wf(),
        ensures
            final(self).wf(),
            (r, final(self)@) == rd_word(old(self)@, address),
    {
        self.bus.read_memory_word(address)
    }

    pub fn write_memory_byte(&mut self, address: u16, value: u8) -> (r: Result<(), BusError>)
        requires
            old(self).wf(),
        ensures
            final(self).wf(),
            address >= 0x8000 ==> r == Err::<(), BusError>(BusError::WriteToRom { address })
                && final(self)@ == old(self)@,
            address < 0x8000 ==> r is Ok && final(self)@ == wr(old(self)@, address, value),
    {
        self.bus.write_memory_byte(address, value)
    }

    pub fn write_memory_word(&mut self, address: u16, value: u16) -> (r: Result<(), BusError>)
        requires
            old(self).wf(),
        ensures
            final(self).wf(),
            final(self).register == old(self).register,
            ({
                let hi_address = ((address + 1) % 0x10000) as u16;
                let lo = (value % 256) as u8;
                let hi = (value / 256) as u8;
                if address >= 0x8000 {
                    r == Err::<(), BusError>(BusError::WriteToRom { address })
                        && final(self)@ == old(self)@
                } else if hi_address >= 0x8000 {
                    r == Err::<(), BusError>(BusError::WriteToRom { address: hi_address })
                        && final(self)@ == wr(old(self)@, address, lo)
                } else {
                    r is Ok && final(self)@ == wr(wr(old(self)@, address, lo), hi_address, hi)
                }
            }),
    {
        self.bus.write_memory_word(address, value)
    }

    fn stack_push_byte(&mut self, value: u8)
        requires
            old(self).wf(),
        ensures
            final(self).wf(),
            final(self)@ == push_spec(old(self)@, value),
    {
        let address = STACK_BASE + self.register.sp as u16;
        let _ = self.write_memory_byte(address, value);
        self.register.sp = self.register.sp.wrapping_sub(1);
    }

    fn stack_push_word(&mut self, value: u16)
        requires
            old(self).wf(),
        ensures
            final(self).wf(),
            final(self)@ == push_word_spec(old(self)@, value),
    {
        self.stack_push_byte((value / 256) as u8);
        self.stack_push_byte((value % 256) as u8);
    }

    fn stack_pop_byte(&mut self) -> (r: u8)
        requires
            old(self).wf(),
        ensures
            final(self).wf(),
            (r, final(self)@) == pop_spec(old(self)@),
    {
        self.register.sp = self.register.sp.wrapping_add(1);
        let address = STACK_BASE + self.register.sp as u16;
        self.read_memory_byte(address)
    }

    fn stack_pop_word(&mut self) -> (r: u16)
        requires
            old(self).wf(),
        ensures
            final(self).wf(),
            (r, final(self)@) == pop_word_spec(old(self)@),
    {
        let lo = self.stack_pop_byte();
        let hi = self.stack_pop_byte();
        lo as u16 + 256 * hi as u16
    }

    /// Back to the state after power-on: registers cleared, SP = 0xFD, P = 0x24, PC
    /// from the word at 0xFFFC.
    pub fn reset(&mut self)
        requires
            old(self).wf(),
        ensures
            final(self).wf(),
            final(self)@ == (CpuView {
                reg: Registers {
                    pc: read_word_value(old(self)@.bus, RESET_VECTOR),
                    ..reset_registers()
                },
                bus: after_read_word(old(self)@.bus, RESET_VECTOR),
            }),
    {
        self.register = CpuRegister::new();
        self.register.pc = self.read_memory_word(RESET_VECTOR);
    }

    fn interrupt_nmi(&mut self)
        requires
            old(self).wf(),
        ensures
            final(self).wf(),
            final(self)@ == nmi_spec(old(self)@),
    {
        let status = self.register.p.bits() & !FLAG_B | FLAG_R;
        self.stack_push_word(self.register.pc);
        self.stack_push_byte(status);
        self.register.p.insert(FLAG_I);
        self.bus.tick(2);
        self.register.pc = self.read_memory_word(NMI_VECTOR);
    }

    /// The effective address of the operand at PC.
    fn get_operand_address(&mut self, mode: AddressingMode) -> (r: u16)
        requires
            old(self).wf(),
        ensures
            final(self).wf(),
            (r, final(self)@) == operand_address(old(self)@, mode),
    {
        let pc = self.register.pc;
        match mode {
            AddressingMode::ZeroPage => self.read_memory_byte(pc) as u16,
            AddressingMode::ZeroPageX => self.zero_page_indexed(self.register.x),
            AddressingMode::ZeroPageY => self.zero_page_indexed(self.register.y),
            AddressingMode::Absolute => self.read_memory_word(pc),
            AddressingMode::AbsoluteX => self.absolute_indexed(self.register.x),
            AddressingMode::AbsoluteY => self.absolute_indexed(self.register.y),
            AddressingMode::Indirect => self.indirect_address(),
            AddressingMode::IndirectX => self.indexed_indirect(),
            AddressingMode::IndirectY => self.indirect_indexed(),
            _ => pc,
        }
    }

    /// Zero page plus an index register, wrapping within the zero page.
    fn zero_page_indexed(&mut self, index: u8) -> (r: u16)
        requires
            old(self).wf(),
        ensures
            final(self).wf(),
            (r, final(self)@) == zero_page_indexed_spec(old(self)@, index),
    {
        let base = self.read_memory_byte(self.register.pc);
        base.wrapping_add(index) as u16
    }

    /// An absolute address plus an index register, wrapping modulo 0x10000.
    fn absolute_indexed(&mut self, index: u8) -> (r: u16)
        requires
            old(self).wf(),
        ensures
            final(self).wf(),
            (r, final(self)@) == absolute_indexed_spec(old(self)@, index),
    {
        let base = self.read_memory_word(self.register.pc);
        base.wrapping_add(index as u16)
    }

    /// The word behind the absolute pointer at PC.
    fn indirect_address(&mut self) -> (r: u16)
        requires
            old(self).wf(),
        ensures
            final(self).wf(),
            (r, final(self)@) == indirect_spec(old(self)@),
    {
        let ptr = self.read_memory_word(self.register.pc);
        // The 6502 does not carry into the high byte here: a pointer at the end of a
        // page takes its high byte from the start of the same page.
        if ptr % 256 == 0xff {
            let lo = self.read_memory_byte(ptr);
            let hi = self.read_memory_byte(ptr - 0xff);
            lo as u16 + 256 * hi as u16
        } else {
            self.read_memory_word(ptr)
        }
    }

    /// The word at zero page (operand + X), both bytes within the zero page.
    fn indexed_indirect(&mut self) -> (r: u16)
        requires
            old(self).wf(),
        ensures
            final(self).wf(),
            (r, final(self)@) == indexed_indirect_spec(old(self)@),
    {
        let base = self.read_memory_byte(self.register.pc);
        let address = base.wrapping_add(self.register.x);
        let lo = self.read_memory_byte(address as u16);
        let hi = self.read_memory_byte(address.wrapping_add(1) as u16);
        lo as u16 + 256 * hi as u16
    }

    /// The word at zero page (operand), plus Y modulo 0x10000.
    fn indirect_indexed(&mut self) -> (r: u16)
        requires
            old(self).wf(),
        ensures
            final(self).wf(),
            (r, final(self)@) == indirect_indexed_spec(old(self)@),
    {
        let base = self.read_memory_byte(self.register.pc);
        let lo = self.read_memory_byte(base as u16);
        let hi = self.read_memory_byte(base.wrapping_add(1) as u16);
        let data = lo as u16 + 256 * hi as u16;
        data.wrapping_add(self.register.y as u16)
    }

    fn update_zero_and_negative_flags(&mut self, result: u8)
        ensures
            final(self).bus == old(self).bus,
            final(self).register@ == (Registers { p: zn(old(self).register@.p, result), ..old(self).register@ }),
    {
        self.register.p.set(FLAG_Z, result == 0);
        self.register.p.set(FLAG_N, result >= 0x80);
    }

    // --- instructions that change registers only ---

    /// The adder behind ADC and SBC: A + value + C.
    fn adc_sbc_sub(&mut self, value: u8)
        ensures
            final(self).bus == old(self).bus,
            final(self).register@ == adc_spec(old(self).register@, value),
    {
        let c: u16 = if self.register.p.contains(FLAG_C) { 1 } else { 0 };
        let a = self.register.a;
        let tmp: u16 = a as u16 + value as u16 + c;
        let res = (tmp % 256) as u8;
        self.register.a = res;
        self.update_zero_and_negative_flags(res);
        self.register.p.set(FLAG_C, tmp > 0xff);
        self.register.p.set(FLAG_V, (a ^ res) & (value ^ res) & 0x80 != 0);
    }

    fn adc(&mut self, value: u8)
        ensures
            final(self).bus == old(self).bus,
            final(self).register@ == adc_spec(old(self).register@, value),
    {
        self.adc_sbc_sub(value);
    }

    /// A + (value XOR 0xFF) + C.
    fn sbc(&mut self, value: u8)
        ensures
            final(self).bus == old(self).bus,
            final(self).register@ == sbc_spec(old(self).register@, value),
    {
        self.adc_sbc_sub(255 - value);
    }

    fn and(&mut self, value: u8)
        ensures
            final(self).bus == old(self).bus,
            final(self).register@ == load_a(old(self).register@, old(self).register.a & value),
    {
        self.lda(self.register.a & value);
    }

    fn ora(&mut self, value: u8)
        ensures
            final(self).bus == old(self).bus,
            final(self).register@ == load_a(old(self).register@, old(self).register.a | value),
    {
        self.lda(self.register.a | value);
    }

    fn eor(&mut self, value: u8)
        ensures
            final(self).bus == old(self).bus,
            final(self).register@ == load_a(old(self).register@, old(self).register.a ^ value),
    {
        self.lda(self.register.a ^ value);
    }

    fn lda(&mut self, value: u8)
        ensures
            final(self).bus == old(self).bus,
            final(self).register@ == load_a(old(self).register@, value),
    {
        self.register.a = value;
        self.update_zero_and_negative_flags(value);
    }

    fn ldx(&mut self, value: u8)
        ensures
            final(self).bus == old(self).bus,
            final(self).register@ == load_x(old(self).register@, value),
    {
        self.register.x = value;
        self.update_zero_and_negative_flags(value);
    }

    fn ldy(&mut self, value: u8)
        ensures
            final(self).bus == old(self).bus,
            final(self).register@ == load_y(old(self).register@, value),
    {
        self.register.y = value;
        self.update_zero_and_negative_flags(value);
    }

    fn bit(&mut self, value: u8)
        ensures
            final(self).bus == old(self).bus,
            final(self).register@ == bit_spec(old(self).register@, value),
    {
        let result = self.register.a & value;
        self.register.p.set(FLAG_Z, result == 0);
        self.register.p.set(FLAG_V, value & 0x40 != 0);
        self.register.p.set(FLAG_N, value & 0x80 != 0);
    }

    /// C = subtracted >= value; N and Z from the difference.
    fn cmp_sub(&mut self, subtracted_value: u8, value: u8)
        ensures
            final(self).bus == old(self).bus,
            final(self).register@ == compare_spec(old(self).register@, subtracted_value, value),
    {
        self.register.p.set(FLAG_C, subtracted_value >= value);
        self.update_zero_and_negative_flags(subtracted_value.wrapping_sub(value));
    }

    fn cmp(&mut self, value: u8)
        ensures
            final(self).bus == old(self).bus,
            final(self).register@ == compare_spec(old(self).register@, old(self).register.a, value),
    {
        self.cmp_sub(self.register.a, value);
    }

    fn cpx(&mut self, value: u8)
        ensures
            final(self).bus == old(self).bus,
            final(self).register@ == compare_spec(old(self).register@, old(self).register.x, value),
    {
        self.cmp_sub(self.register.x, value);
    }

    fn cpy(&mut self, value: u8)
        ensures
            final(self).bus == old(self).bus,
            final(self).register@ == compare_spec(old(self).register@, old(self).register.y, value),
    {
        self.cmp_sub(self.register.y, value);
    }

    fn lax(&mut self, value: u8)
        ensures
            final(self).bus == old(self).bus,
            final(self).register@ == lax_spec(old(self).register@, value),
    {
        self.lda(value);
        self.tax();
    }

    fn alr(&mut self, value: u8)
        ensures
            final(self).bus == old(self).bus,
            final(self).register@ == alr_spec(old(self).register@, value),
    {
        self.and(value);
        let a = self.register.a;
        self.register.a = self.lsr(a);
    }

    fn anc(&mut self, value: u8)
        ensures
            final(self).bus == old(self).bus,
            final(self).register@ == anc_spec(old(self).register@, value),
    {
        self.and(value);
        let negative = self.register.p.contains(FLAG_N);
        self.register.p.set(FLAG_C, negative);
    }

    fn arr(&mut self, value: u8)
        ensures
            final(self).bus == old(self).bus,
            final(self).register@ == arr_spec(old(self).register@, value),
    {
        self.and(value);
        let c: u8 = if self.register.p.contains(FLAG_C) { 1 } else { 0 };
        let result = self.register.a / 2 + 128 * c;
        let bit6 = result & 0x40 != 0;
        let bit5 = result & 0x20 != 0;
        self.register.p.set(FLAG_C, bit6);
        self.register.p.set(FLAG_V, bit6 != bit5);
        self.register.a = result;
        self.update_zero_and_negative_flags(result);
    }

    fn axs(&mut self, value: u8)
        ensures
            final(self).bus == old(self).bus,
            final(self).register@ == axs_spec(old(self).register@, value),
    {
        let a = self.register.a;
        let x = self.register.x;
        let x_and_a = x & a;
        assert(x & a == a & x) by (bit_vector);
        let result = x_and_a.wrapping_sub(value);
        self.register.x = result;
        self.register.p.set(FLAG_C, x_and_a >= value);
        self.update_zero_and_negative_flags(result);
    }

    /// Shift left; the old bit 7 goes to C.
    fn asl(&mut self, value: u8) -> (r: u8)
        ensures
            final(self).bus == old(self).bus,
            (r, final(self).register@) == asl_spec(old(self).register@, value),
    {
        let result = (value % 128) * 2;
        self.register.p.set(FLAG_C, value >= 0x80);
        self.update_zero_and_negative_flags(result);
        result
    }

    /// Shift right; the old bit 0 goes to C.
    fn lsr(&mut self, value: u8) -> (r: u8)
        ensures
            final(self).bus == old(self).bus,
            (r, final(self).register@) == lsr_spec(old(self).register@, value),
    {
        let result = value / 2;
        self.register.p.set(FLAG_C, value % 2 == 1);
        self.update_zero_and_negative_flags(result);
        result
    }

    /// Rotate left through C.
    fn rol(&mut self, value: u8) -> (r: u8)
        ensures
            final(self).bus == old(self).bus,
            (r, final(self).register@) == rol_spec(old(self).register@, value),
    {
        let c: u8 = if self.register.p.contains(FLAG_C) { 1 } else { 0 };
        let result = (value % 128) * 2 + c;
        self.register.p.set(FLAG_C, value >= 0x80);
        self.update_zero_and_negative_flags(result);
        result
    }

    /// Rotate right through C.
    fn ror(&mut self, value: u8) -> (r: u8)
        ensures
            final(self).bus == old(self).bus,
            (r, final(self).register@) == ror_spec(old(self).register@, value),
    {
        let c: u8 = if self.register.p.contains(FLAG_C) { 1 } else { 0 };
        let result = value / 2 + 128 * c;
        self.register.p.set(FLAG_C, value % 2 == 1);
        self.update_zero_and_negative_flags(result);
        result
    }

    fn inc(&mut self, value: u8) -> (r: u8)
        ensures
            final(self).bus == old(self).bus,
            (r, final(self).register@) == inc_spec(old(self).register@, value),
    {
        let result = value.wrapping_add(1);
        self.update_zero_and_negative_flags(result);
        result
    }

    fn dec(&mut self, value: u8) -> (r: u8)
        ensures
            final(self).bus == old(self).bus,
            (r, final(self).register@) == dec_spec(old(self).register@, value),
    {
        let result = value.wrapping_sub(1);
        self.update_zero_and_negative_flags(result);
        result
    }

    fn clc(&mut self)
        ensures
            final(self).bus == old(self).bus,
            final(self).register@ == implied_op(Instruction::CLC, old(self).register@),
    {
        self.register.p.remove(FLAG_C);
    }

    fn cld(&mut self)
        ensures
            final(self).bus == old(self).bus,
            final(self).register@ == implied_op(Instruction::CLD, old(self).register@),
    {
        self.register.p.remove(FLAG_D);
    }

    fn cli(&mut self)
        ensures
            final(self).bus == old(self).bus,
            final(self).register@ == implied_op(Instruction::CLI, old(self).register@),
    {
        self.register.p.remove(FLAG_I);
    }

    fn clv(&mut self)
        ensures
            final(self).bus == old(self).bus,
            final(self).register@ == implied_op(Instruction::CLV, old(self).register@),
    {
        self.register.p.remove(FLAG_V);
    }

    fn sec(&mut self)
        ensures
            final(self).bus == old(self).bus,
            final(self).register@ == implied_op(Instruction::SEC, old(self).register@),
    {
        self.register.p.insert(FLAG_C);
    }

    fn sed(&mut self)
        ensures
            final(self).bus == old(self).bus,
            final(self).register@ == implied_op(Instruction::SED, old(self).register@),
    {
        self.register.p.insert(FLAG_D);
    }

    fn sei(&mut self)
        ensures
            final(self).bus == old(self).bus,
            final(self).register@ == implied_op(Instruction::SEI, old(self).register@),
    {
        self.register.p.insert(FLAG_I);
    }

    fn tax(&mut self)
        ensures
            final(self).bus == old(self).bus,
            final(self).register@ == implied_op(Instruction::TAX, old(self).register@),
    {
        self.ldx(self.register.a);
    }

    fn tay(&mut self)
        ensures
            final(self).bus == old(self).bus,
            final(self).register@ == implied_op(Instruction::TAY, old(self).register@),
    {
        self.ldy(self.register.a);
    }

    fn tsx(&mut self)
        ensures
            final(self).bus == old(self).bus,
            final(self).register@ == implied_op(Instruction::TSX, old(self).register@),
    {
        self.ldx(self.register.sp);
    }

    fn txa(&mut self)
        ensures
            final(self).bus == old(self).bus,
            final(self).register@ == implied_op(Instruction::TXA, old(self).register@),
    {
        self.lda(self.register.x);
    }

    fn txs(&mut self)
        ensures
            final(self).bus == old(self).bus,
            final(self).register@ == implied_op(Instruction::TXS, old(self).register@),
    {
        self.register.sp = self.register.x;
    }

    fn tya(&mut self)
        ensures
            final(self).bus == old(self).bus,
            final(self).register@ == implied_op(Instruction::TYA, old(self).register@),
    {
        self.lda(self.register.y);
    }

    fn inx(&mut self)
        ensures
            final(self).bus == old(self).bus,
            final(self).register@ == implied_op(Instruction::INX, old(self).register@),
    {
        self.ldx(self.register.x.wrapping_add(1));
    }

    fn iny(&mut self)
        ensures
            final(self).bus == old(self).bus,
            final(self).register@ == implied_op(Instruction::INY, old(self).register@),
    {
        self.ldy(self.register.y.wrapping_add(1));
    }

    fn dex(&mut self)
        ensures
            final(self).bus == old(self).bus,
            final(self).register@ == implied_op(Instruction::DEX, old(self).register@),
    {
        self.ldx(self.register.x.wrapping_sub(1));
    }

    fn dey(&mut self)
        ensures
            final(self).bus == old(self).bus,
            final(self).register@ == implied_op(Instruction::DEY, old(self).register@),
    {
        self.ldy(self.register.y.wrapping_sub(1));
    }

    fn nop(&mut self)
        ensures
            final(self).bus == old(self).bus,
            final(self).register == old(self).register,
    {
    }

    // --- dispatch by group ---

    /// A read-kind instruction applied to its operand.
    fn apply_read(&mut self, ins: Instruction, value: u8)
        ensures
            final(self).bus == old(self).bus,
            final(self).register@ == read_op(ins, old(self).register@, value),
    {
        reveal(read_op);
        reveal(modify_op);
        reveal(follow_op);
        match ins {
            Instruction::ADC => self.adc(value),
            Instruction::AND => self.and(value),
            Instruction::BIT => self.bit(value),
            Instruction::CMP => self.cmp(value),
            Instruction::CPX => self.cpx(value),
            Instruction::CPY => self.cpy(value),
            Instruction::EOR => self.eor(value),
            Instruction::LDA => self.lda(value),
            Instruction::LDX => self.ldx(value),
            Instruction::LDY => self.ldy(value),
            Instruction::ORA => self.ora(value),
            Instruction::SBC => self.sbc(value),
            Instruction::LAX => self.lax(value),
            Instruction::ALR => self.alr(value),
            Instruction::ANC => self.anc(value),
            Instruction::ARR => self.arr(value),
            Instruction::AXS => self.axs(value),
            _ => self.nop(),
        }
    }

    /// The byte a store-kind instruction writes.
    fn store_value(&self, ins: Instruction) -> (r: u8)
        ensures
            r == store_value(ins, self.register@),
    {
        match ins {
            Instruction::STA => self.register.a,
            Instruction::STX => self.register.x,
            Instruction::STY => self.register.y,
            _ => self.register.a & self.register.x,
        }
    }

    /// A modify-kind instruction applied to its operand; returns the new operand.
    fn apply_modify(&mut self, ins: Instruction, value: u8) -> (r: u8)
        ensures
            final(self).bus == old(self).bus,
            (r, final(self).register@) == modify_op(ins, old(self).register@, value),
    {
        reveal(read_op);
        reveal(modify_op);
        reveal(follow_op);
        match ins {
            Instruction::ASL | Instruction::SLO => self.asl(value),
            Instruction::LSR | Instruction::SRE => self.lsr(value),
            Instruction::ROL | Instruction::RLA => self.rol(value),
            Instruction::ROR | Instruction::RRA => self.ror(value),
            Instruction::INC | Instruction::ISC => self.inc(value),
            _ => self.dec(value),
        }
    }

    /// The second half of the combined instructions, on the written-back operand.
    fn apply_follow(&mut self, ins: Instruction, value: u8)
        ensures
            final(self).bus == old(self).bus,
            final(self).register@ == follow_op(ins, old(self).register@, value),
    {
        reveal(read_op);
        reveal(modify_op);
        reveal(follow_op);
        match ins {
            Instruction::DCP => self.cmp(value),
            Instruction::ISC => self.sbc(value),
            Instruction::RLA => self.and(value),
            Instruction::RRA => self.adc(value),
            Instruction::SLO => self.ora(value),
            Instruction::SRE => self.eor(value),
            _ => self.nop(),
        }
    }

    fn apply_implied(&mut self, ins: Instruction)
        ensures
            final(self).bus == old(self).bus,
            final(self).register@ == implied_op(ins, old(self).register@),
    {
        match ins {
            Instruction::CLC => self.clc(),
            Instruction::CLD => self.cld(),
            Instruction::CLI => self.cli(),
            Instruction::CLV => self.clv(),
            Instruction::SEC => self.sec(),
            Instruction::SED => self.sed(),
            Instruction::SEI => self.sei(),
            Instruction::TAX => self.tax(),
            Instruction::TAY => self.tay(),
            Instruction::TSX => self.tsx(),
            Instruction::TXA => self.txa(),
            Instruction::TXS => self.txs(),
            Instruction::TYA => self.tya(),
            Instruction::INX => self.inx(),
            Instruction::INY => self.iny(),
            Instruction::DEX => self.dex(),
            Instruction::DEY => self.dey(),
            _ => self.nop(),
        }
    }

    /// Whether a branch instruction is taken.
    fn branch_condition(&self, ins: Instruction) -> (r: bool)
        ensures
            r == branch_taken(ins, self.register@.p),
    {
        match ins {
            Instruction::BCC => !self.register.p.contains(FLAG_C),
            Instruction::BCS => self.register.p.contains(FLAG_C),
            Instruction::BEQ => self.register.p.contains(FLAG_Z),
            Instruction::BNE => !self.register.p.contains(FLAG_Z),
            Instruction::BMI => self.register.p.contains(FLAG_N),
            Instruction::BPL => !self.register.p.contains(FLAG_N),
            Instruction::BVS => self.register.p.contains(FLAG_V),
            _ => !self.register.p.contains(FLAG_V),
        }
    }

    // --- ends of instructions ---

    /// PC past the operand, then the cycles.
    fn finish_instruction(&mut self, op: Opcode) -> (r: Result<StepOutcome, CpuError>)
        requires
            old(self).wf(),
            1 <= op.bytes,
        ensures
            final(self).wf(),
            (r, final(self)@) == finish(old(self)@, op),
    {
        self.register.pc = self.register.pc.wrapping_add(op.bytes as u16 - 1);
        self.bus.tick(op.cycles as u16);
        Ok(StepOutcome::Running)
    }

    /// PC set to `target`, then the cycles.
    fn jump_and_count(&mut self, target: u16, op: Opcode) -> (r: Result<StepOutcome, CpuError>)
        requires
            old(self).wf(),
        ensures
            final(self).wf(),
            (r, final(self)@) == jump_to(old(self)@, target, op),
    {
        self.register.pc = target;
        self.bus.tick(op.cycles as u16);
        Ok(StepOutcome::Running)
    }

    // --- one group each ---

    fn execute_read(&mut self, op: Opcode, at: u16) -> (r: Result<StepOutcome, CpuError>)
        requires
            old(self).wf(),
            1 <= op.bytes,
            kind_of(op.instruction) == Kind::Read,
        ensures
            final(self).wf(),
            (r, final(self)@) == execute_spec(old(self)@, op, at),
    {
        reveal(execute_spec);
        let address = self.get_operand_address(op.addressing_mode);
        let value = self.read_memory_byte(address);
        self.apply_read(op.instruction, value);
        self.finish_instruction(op)
    }

    fn execute_store(&mut self, op: Opcode, at: u16) -> (r: Result<StepOutcome, CpuError>)
        requires
            old(self).wf(),
            1 <= op.bytes,
            kind_of(op.instruction) == Kind::Store,
        ensures
            final(self).wf(),
            (r, final(self)@) == execute_spec(old(self)@, op, at),
    {
        reveal(execute_spec);
        let address = self.get_operand_address(op.addressing_mode);
        let value = self.store_value(op.instruction);
        if self.write_memory_byte(address, value).is_err() {
            return Err(CpuError::WriteToRom { address, pc: at });
        }
        self.finish_instruction(op)
    }

    fn execute_modify(&mut self, op: Opcode, at: u16) -> (r: Result<StepOutcome, CpuError>)
        requires
            old(self).wf(),
            1 <= op.bytes,
            kind_of(op.instruction) == Kind::Modify,
        ensures
            final(self).wf(),
            (r, final(self)@) == execute_spec(old(self)@, op, at),
    {
        reveal(execute_spec);
        if op.addressing_mode == AddressingMode::Accumulator {
            let value = self.register.a;
            let result = self.apply_modify(op.instruction, value);
            self.register.a = result;
        } else {
            let address = self.get_operand_address(op.addressing_mode);
            let value = self.read_memory_byte(address);
            let result = self.apply_modify(op.instruction, value);
            if self.write_memory_byte(address, result).is_err() {
                return Err(CpuError::WriteToRom { address, pc: at });
            }
            self.apply_follow(op.instruction, result);
        }
        self.finish_instruction(op)
    }

    /// A conditional branch: the offset is sign-extended and taken from the address
    /// after the operand.
    fn bxx_sub(&mut self, op: Opcode, at: u16) -> (r: Result<StepOutcome, CpuError>)
        requires
            old(self).wf(),
            1 <= op.bytes,
            kind_of(op.instruction) == Kind::Branch,
        ensures
            final(self).wf(),
            (r, final(self)@) == execute_spec(old(self)@, op, at),
    {
        reveal(execute_spec);
        let offset = self.read_memory_byte(self.register.pc);
        if self.branch_condition(op.instruction) {
            self.register.pc = branch_target(self.register.pc, offset);
        }
        self.finish_instruction(op)
    }

    fn jmp(&mut self, op: Opcode, at: u16) -> (r: Result<StepOutcome, CpuError>)
        requires
            old(self).wf(),
            op.instruction == Instruction::JMP,
        ensures
            final(self).wf(),
            (r, final(self)@) == execute_spec(old(self)@, op, at),
    {
        reveal(execute_spec);
        let address = self.get_operand_address(op.addressing_mode);
        self.jump_and_count(address, op)
    }

    /// Pushes the address of JSR's last byte, then jumps.
    #[verifier::rlimit(50)]
    fn jsr(&mut self, op: Opcode, at: u16) -> (r: Result<StepOutcome, CpuError>)
        requires
            old(self).wf(),
            op.instruction == Instruction::JSR,
        ensures
            final(self).wf(),
            (r, final(self)@) == execute_spec(old(self)@, op, at),
    {
        reveal(execute_spec);
        self.stack_push_word(self.register.pc.wrapping_add(1));
        let address = self.get_operand_address(op.addressing_mode);
        self.jump_and_count(address, op)
    }

    /// Pops the address pushed by JSR and continues after it.
    fn rts(&mut self, op: Opcode, at: u16) -> (r: Result<StepOutcome, CpuError>)
        requires
            old(self).wf(),
            op.instruction == Instruction::RTS,
        ensures
            final(self).wf(),
            (r, final(self)@) == execute_spec(old(self)@, op, at),
    {
        reveal(execute_spec);
        let address = self.stack_pop_word();
        let target = address.wrapping_add(1);
        assert(target == wadd16(address, 1));
        self.jump_and_count(target, op)
    }

    /// Pops the status (B cleared, R set), then PC.
    fn rti(&mut self, op: Opcode, at: u16) -> (r: Result<StepOutcome, CpuError>)
        requires
            old(self).wf(),
            op.instruction == Instruction::RTI,
        ensures
            final(self).wf(),
            (r, final(self)@) == execute_spec(old(self)@, op, at),
    {
        reveal(execute_spec);
        self.plp();
        let address = self.stack_pop_word();
        self.jump_and_count(address, op)
    }

    fn pha(&mut self)
        requires
            old(self).wf(),
        ensures
            final(self).wf(),
            final(self)@ == push_spec(old(self)@, old(self).register.a),
    {
        self.stack_push_byte(self.register.a);
    }

    /// Pushes the status with B and R set.
    fn php(&mut self)
        requires
            old(self).wf(),
        ensures
            final(self).wf(),
            final(self)@ == push_spec(old(self)@, old(self)@.reg.p | FLAG_B | FLAG_R),
    {
        self.stack_push_byte(self.register.p.bits() | FLAG_B | FLAG_R);
    }

    fn pla(&mut self)
        requires
            old(self).wf(),
        ensures
            final(self).wf(),
            ({
                let (v, s1) = pop_spec(old(self)@);
                final(self)@ == with_regs(s1, load_a(s1.reg, v))
            }),
    {
        let value = self.stack_pop_byte();
        self.lda(value);
    }

    /// Pops the status, B cleared and R set.
    fn plp(&mut self)
        requires
            old(self).wf(),
        ensures
            final(self).wf(),
            ({
                let (v, s1) = pop_spec(old(self)@);
                final(self)@ == with_regs(s1, Registers { p: pulled_status(v), ..s1.reg })
            }),
    {
        let data = self.stack_pop_byte();
        let status = StatusRegister::from_bits(data & !FLAG_B | FLAG_R);
        if let Some(status) = status {
            proof {
                let x = data & !FLAG_B | FLAG_R;
                assert(x | 0x20u8 == x) by (bit_vector)
                    requires
                        x == data & !0x10u8 | 0x20u8,
                ;
            }
            self.register.p = status;
        }
    }

    /// One instruction `op`, fetched from `at`, PC already past the opcode byte.
    fn execute(&mut self, op: Opcode, at: u16) -> (r: Result<StepOutcome, CpuError>)
        requires
            old(self).wf(),
            1 <= op.bytes,
        ensures
            final(self).wf(),
            (r, final(self)@) == execute_spec(old(self)@, op, at),
    {
        reveal(execute_spec);
        match kind(op.instruction) {
            Kind::Read => self.execute_read(op, at),
            Kind::Store => self.execute_store(op, at),
            Kind::Modify => self.execute_modify(op, at),
            Kind::Implied => {
                self.apply_implied(op.instruction);
                self.finish_instruction(op)
            },
            Kind::Branch => self.bxx_sub(op, at),
            Kind::Jump => self.jmp(op, at),
            Kind::Call => self.jsr(op, at),
            Kind::Return => self.rts(op, at),
            Kind::ReturnFromInterrupt => self.rti(op, at),
            Kind::PushA => {
                self.pha();
                self.finish_instruction(op)
            },
            Kind::PushP => {
                self.php();
                self.finish_instruction(op)
            },
            Kind::PullA => {
                self.pla();
                self.finish_instruction(op)
            },
            Kind::PullP => {
                self.plp();
                self.finish_instruction(op)
            },
            Kind::Break => {
                // BRK ends the run: this emulator uses it as the end of a program.
                self.bus.tick(op.cycles as u16);
                Ok(StepOutcome::Halted)
            },
        }
    }

    /// Services a pending NMI, then executes one instruction.
    #[verifier::rlimit(100)]
    pub fn step(&mut self) -> (r: Result<StepOutcome, CpuError>)
        requires
            old(self).wf(),
        ensures
            final(self).wf(),
            (r, final(self)@) == step_spec(old(self)@),
    {
        if self.bus.poll_nmi_status() {
            self.interrupt_nmi();
        }
        let at = self.register.pc;
        let code = self.read_memory_byte(at);
        self.register.pc = at.wrapping_add(1);
        match decode(code) {
            None => Err(CpuError::UnknownOpcode { opcode: code, pc: at }),
            Some(op) => self.execute(op, at),
        }
    }

    /// Runs until BRK or an error (or, in practice never, `RUN_LIMIT` instructions).
    pub fn run(&mut self) -> (r: Result<(), CpuError>)
        requires
            old(self).wf(),
        ensures
            final(self).wf(),
            (r, final(self)@) == run_spec(old(self)@, RUN_LIMIT as nat),
    {
        let mut budget: u64 = RUN_LIMIT;
        while budget > 0
            invariant
                self.wf(),
                run_spec(old(self)@, RUN_LIMIT as nat) == run_spec(self@, budget as nat),
            decreases budget,
        {
            match self.step() {
                Ok(StepOutcome::Running) => {},
                Ok(StepOutcome::Halted) => return Ok(()),
                Err(e) => return Err(e),
            }
            budget = budget - 1;
        }
        Err(CpuError::StepLimitReached)
    }

    /// Runs like `run`, calling `callback` before each instruction. The callback may
    /// change the machine, so what is known of the end is what the last step did:
    /// `Ok` only after a step that executed BRK, and an error either from a step or
    /// because the callback left the machine unable to run (`InvalidState`), or after
    /// `RUN_LIMIT` instructions.
    pub fn run_with_callback<F: FnMut(&mut Cpu)>(&mut self, mut callback: F) -> (r: Result<(), CpuError>)
        requires
            old(self).wf(),
            forall|c: &mut Cpu| call_requires(callback, (c,)),
        ensures
            r is Ok ==> final(self).wf() && exists|s: CpuView|
                s.bus.wf() && step_spec(s) == (Ok::<StepOutcome, CpuError>(StepOutcome::Halted), final(self)@),
            r matches Err(e) ==> e == CpuError::InvalidState || e == CpuError::StepLimitReached
                || (final(self).wf() && exists|s: CpuView|
                s.bus.wf() && step_spec(s) == (Err::<StepOutcome, CpuError>(e), final(self)@)),
    {
        let mut budget: u64 = RUN_LIMIT;
        while budget > 0
            invariant
                self.wf(),
                forall|c: &mut Cpu| call_requires(callback, (c,)),
            decreases budget,
        {
            callback(self);
            if !self.is_well_formed() {
                return Err(CpuError::InvalidState);
            }
            let ghost before = self@;
            match self.step() {
                Ok(StepOutcome::Running) => {},
                Ok(StepOutcome::Halted) => {
                    assert(before.bus.wf() && step_spec(before) == (
                        Ok::<StepOutcome, CpuError>(StepOutcome::Halted),
                        self@,
                    ));
                    return Ok(());
                },
                Err(e) => {
                    assert(before.bus.wf() && step_spec(before) == (
                        Err::<StepOutcome, CpuError>(e),
                        self@,
                    ));
                    return Err(e);
                },
            }
            budget = budget - 1;
        }
        Err(CpuError::StepLimitReached)
    }
}

// ---------------------------------------------------------------------------
// Laws

/// Bit 5 of every status register reads as 1.
pub proof fn lemma_reserved_bit_reads_one(p: StatusRegister)
    ensures
        p@ & FLAG_R == FLAG_R,
{
    let b = p.bits;
    assert((b | 0x20u8) & 0x20u8 == 0x20u8) by (bit_vector);
}

/// Setting or clearing C, Z, I, D, V or N leaves B as it was.
pub broadcast proof fn lemma_flag_keeps_break(p: u8, m: u8, on: bool)
    requires
        m == FLAG_C || m == FLAG_Z || m == FLAG_I || m == FLAG_D || m == FLAG_V || m == FLAG_N,
    ensures
        #[trigger] with_flag(p, m, on) & FLAG_B == p & FLAG_B,
{
    if on {
        assert(((p | m) | 0x20u8) & 0x10u8 == p & 0x10u8) by (bit_vector)
            requires
                m == 1u8 || m == 2u8 || m == 4u8 || m == 8u8 || m == 0x40u8 || m == 0x80u8,
        ;
    } else {
        assert(((p & !m) | 0x20u8) & 0x10u8 == p & 0x10u8) by (bit_vector)
            requires
                m == 1u8 || m == 2u8 || m == 4u8 || m == 8u8 || m == 0x40u8 || m == 0x80u8,
        ;
    }
}

/// Read-kind instructions leave B as it was.
pub broadcast proof fn lemma_read_op_keeps_break(ins: Instruction, r: Registers, m: u8)
    ensures
        #[trigger] read_op(ins, r, m).p & FLAG_B == r.p & FLAG_B,
{
    reveal(read_op);
    broadcast use lemma_flag_keeps_break;

}

/// Modify-kind instructions leave B as it was, in both halves.
pub broadcast proof fn lemma_modify_op_keeps_break(ins: Instruction, r: Registers, m: u8)
    ensures
        #![trigger modify_op(ins, r, m)]
        #![trigger follow_op(ins, r, m)]
        modify_op(ins, r, m).1.p & FLAG_B == r.p & FLAG_B,
        follow_op(ins, r, m).p & FLAG_B == r.p & FLAG_B,
{
    reveal(modify_op);
    reveal(follow_op);
    broadcast use lemma_flag_keeps_break;

}

/// The B bit of the live status is only ever changed by PLP and RTI, which clear it:
/// no arithmetic, transfer or other instruction touches it.
#[verifier::rlimit(100)]
pub proof fn lemma_break_bit_kept(s: CpuView, op: Opcode, at: u16)
    ensures
        kind_of(op.instruction) != Kind::PullP && kind_of(op.instruction)
            != Kind::ReturnFromInterrupt ==> execute_spec(s, op, at).1.reg.p & FLAG_B == s.reg.p
            & FLAG_B,
{
    reveal(execute_spec);
    broadcast use lemma_flag_keeps_break, lemma_read_op_keeps_break, lemma_modify_op_keeps_break;

}

/// Setting or clearing C, Z, V or N leaves B, D and I as they were.
pub broadcast proof fn lemma_result_flag_keeps_mode(p: u8, m: u8, on: bool)
    requires
        m == FLAG_C || m == FLAG_Z || m == FLAG_V || m == FLAG_N,
    ensures
        #[trigger] with_flag(p, m, on) & 0x1c == p & 0x1c,
{
    if on {
        assert(((p | m) | 0x20u8) & 0x1cu8 == p & 0x1cu8) by (bit_vector)
            requires
                m == 1u8 || m == 2u8 || m == 0x40u8 || m == 0x80u8,
        ;
    } else {
        assert(((p & !m) | 0x20u8) & 0x1cu8 == p & 0x1cu8) by (bit_vector)
            requires
                m == 1u8 || m == 2u8 || m == 0x40u8 || m == 0x80u8,
        ;
    }
}

/// ADC and SBC write only N, V, Z and C: B, D and I stay as they were.
pub proof fn lemma_arithmetic_keeps_mode_bits(r: Registers, m: u8)
    ensures
        adc_spec(r, m).p & 0x1c == r.p & 0x1c,
        sbc_spec(r, m).p & 0x1c == r.p & 0x1c,
{
    broadcast use lemma_result_flag_keeps_mode;

}

/// PLP and RTI load the status with B clear.
pub proof fn lemma_pulled_status_clears_break(v: u8)
    ensures
        pulled_status(v) & FLAG_B == 0,
        pulled_status(v) & FLAG_R == FLAG_R,
{
    assert(((v & !0x10u8) | 0x20u8) & 0x10u8 == 0) by (bit_vector);
    assert(((v & !0x10u8) | 0x20u8) & 0x20u8 == 0x20u8) by (bit_vector);
}

/// Finding an operand only reads.
proof fn lemma_operand_keeps_cycles(s: CpuView, mode: AddressingMode)
    ensures
        operand_address(s, mode).1.bus.cycles == s.bus.cycles,
        operand_address(s, mode).1.reg == s.reg,
{
    broadcast use lemma_read_keeps_memory, lemma_read_word_keeps_memory;

}

/// An instruction counts exactly its base cycles, unless it writes the OAM DMA port
/// (which adds the transfer's cycles).
#[verifier::rlimit(100)]
pub proof fn lemma_cycles_counted(s: CpuView, op: Opcode, at: u16)
    requires
        s.bus.wf(),
        kind_of(op.instruction) == Kind::Store || (kind_of(op.instruction) == Kind::Modify
            && op.addressing_mode != AddressingMode::Accumulator) ==> operand_address(
            s,
            op.addressing_mode,
        ).0 != OAM_DMA,
    ensures
        execute_spec(s, op, at).0 is Ok ==> execute_spec(s, op, at).1.bus.cycles == (s.bus.cycles
            + op.cycles) % 0x1_0000_0000_0000_0000,
{
    reveal(execute_spec);
    broadcast use lemma_read_keeps_memory, lemma_read_word_keeps_memory, lemma_write_keeps_cycles;

    lemma_operand_keeps_cycles(s, op.addressing_mode);
}

/// A pushed byte is what the next pop returns, as long as work RAM and SP are as the
/// push left them; the pop puts SP back.
proof fn lemma_push_then_pop(s: CpuView, v: u8, t: CpuView)
    requires
        s.bus.wf(),
        t.bus.wram == push_spec(s, v).bus.wram,
        t.reg.sp == push_spec(s, v).reg.sp,
    ensures
        pop_spec(t).0 == v,
        pop_spec(t).1.reg == (Registers { sp: s.reg.sp, ..t.reg }),
{
    let a = (STACK_BASE + s.reg.sp) as u16;
    lemma_wram_write(s.bus, a, v);
    assert(wadd8(t.reg.sp, 1) == s.reg.sp);
    lemma_wram_read(t.bus, a);
}

/// PHA followed by PLA gives A back, with N and Z set from it, and SP as before.
pub proof fn lemma_pha_pla(s: CpuView, pha: Opcode, pla: Opcode, at1: u16, at2: u16)
    requires
        s.bus.wf(),
        pha.instruction == Instruction::PHA,
        pla.instruction == Instruction::PLA,
    ensures
        ({
            let (r1, s1) = execute_spec(s, pha, at1);
            let (r2, s2) = execute_spec(s1, pla, at2);
            &&& r1 == Ok::<StepOutcome, CpuError>(StepOutcome::Running)
            &&& r2 == Ok::<StepOutcome, CpuError>(StepOutcome::Running)
            &&& s2.reg.a == s.reg.a
            &&& s2.reg.sp == s.reg.sp
            &&& s2.reg.p == zn(s.reg.p, s.reg.a)
        }),
{
    assert(execute_spec(s, pha, at1) == finish(push_spec(s, s.reg.a), pha)) by {
        reveal(execute_spec);
    }
    let s1 = execute_spec(s, pha, at1).1;
    lemma_push_then_pop(s, s.reg.a, s1);
    let (v, s2) = pop_spec(s1);
    assert(execute_spec(s1, pla, at2) == finish(with_regs(s2, load_a(s2.reg, v)), pla)) by {
        reveal(execute_spec);
    }
}

/// PHP followed by PLP gives the status back with B clear (and R set).
pub proof fn lemma_php_plp(s: CpuView, php: Opcode, plp: Opcode, at1: u16, at2: u16)
    requires
        s.bus.wf(),
        php.instruction == Instruction::PHP,
        plp.instruction == Instruction::PLP,
    ensures
        ({
            let (r1, s1) = execute_spec(s, php, at1);
            let (r2, s2) = execute_spec(s1, plp, at2);
            &&& r1 == Ok::<StepOutcome, CpuError>(StepOutcome::Running)
            &&& r2 == Ok::<StepOutcome, CpuError>(StepOutcome::Running)
            &&& s2.reg.sp == s.reg.sp
            &&& s2.reg.p == (s.reg.p & !FLAG_B) | FLAG_R
        }),
{
    let v = s.reg.p | FLAG_B | FLAG_R;
    assert(execute_spec(s, php, at1) == finish(push_spec(s, v), php)) by {
        reveal(execute_spec);
    }
    let s1 = execute_spec(s, php, at1).1;
    lemma_push_then_pop(s, v, s1);
    let (w, s2) = pop_spec(s1);
    assert(execute_spec(s1, plp, at2) == finish(
        with_regs(s2, Registers { p: pulled_status(w), ..s2.reg }),
        plp,
    )) by {
        reveal(execute_spec);
    }
    let p = s.reg.p;
    assert((((p | 0x10u8) | 0x20u8) & !0x10u8) | 0x20u8 == (p & !0x10u8) | 0x20u8) by (bit_vector);
}

/// LDA immediate loads the operand byte; a byte stored to zero page with STA is what
/// LDA from the same zero-page address loads, whatever happens between the two
/// operand fetches.
#[verifier::rlimit(100)]
pub proof fn lemma_store_load_zero_page(s: CpuView, t_pc: u16, at1: u16, at2: u16)
    requires
        s.bus.wf(),
    ensures
        execute_spec(s, opcode_of(0xa9).unwrap(), at1).1.reg.a == rd(s, s.reg.pc).0,
        ({
            let (z, _) = rd(s, s.reg.pc);
            let (r1, s1) = execute_spec(s, opcode_of(0x85).unwrap(), at1);
            let t = with_regs(s1, Registers { pc: t_pc, ..s1.reg });
            let (r2, s2) = execute_spec(t, opcode_of(0xa5).unwrap(), at2);
            rd(t, t_pc).0 == z ==> r1 == Ok::<StepOutcome, CpuError>(StepOutcome::Running)
                && s2.reg.a == s.reg.a
        }),
{
    broadcast use lemma_read_keeps_memory;

    reveal(execute_spec);
    reveal(read_op);
    assert(opcode_of(0xa9) == Some(Opcode { code: 0xa9, instruction: Instruction::LDA, bytes: 2, cycles: 2, addressing_mode: AddressingMode::Immediate }));
    assert(opcode_of(0x85) == Some(Opcode { code: 0x85, instruction: Instruction::STA, bytes: 2, cycles: 3, addressing_mode: AddressingMode::ZeroPage }));
    assert(opcode_of(0xa5) == Some(Opcode { code: 0xa5, instruction: Instruction::LDA, bytes: 2, cycles: 3, addressing_mode: AddressingMode::ZeroPage }));
    let (z, s0) = rd(s, s.reg.pc);
    let zw = z as u16;
    lemma_wram_write(s0.bus, zw, s.reg.a);
    let (r1, s1) = execute_spec(s, opcode_of(0x85).unwrap(), at1);
    let t = with_regs(s1, Registers { pc: t_pc, ..s1.reg });
    let (z2, t1) = rd(t, t_pc);
    if z2 == z {
        lemma_wram_read(t1.bus, zw);
    }
}

/// JMP through a pointer whose low byte is 0xFF takes the high byte of the target
/// from the start of the pointer's own page.
pub proof fn lemma_indirect_jump_page_wrap(s: CpuView, at: u16)
    ensures
        ({
            let (ptr, s1) = rd_word(s, s.reg.pc);
            let (lo, s2) = rd(s1, ptr);
            let (hi, s3) = rd(s2, (ptr - 0xff) as u16);
            ptr % 256 == 0xff ==> {
                &&& (ptr - 0xff) / 256 == ptr / 256
                &&& operand_address(s, AddressingMode::Indirect) == ((lo + 256 * hi) as u16, s3)
                &&& execute_spec(s, opcode_of(0x6c).unwrap(), at).1.reg.pc == (lo + 256
                    * hi) as u16
            }
        }),
{
    reveal(execute_spec);
    assert(opcode_of(0x6c) == Some(Opcode { code: 0x6c, instruction: Instruction::JMP, bytes: 3, cycles: 5, addressing_mode: AddressingMode::Indirect }));
}

/// Post-indexed indirect addressing: the pointer from the zero page plus Y, modulo
/// 0x10000.
pub proof fn lemma_indirect_y_address(s: CpuView)
    ensures
        ({
            let (b, s1) = rd(s, s.reg.pc);
            let (lo, s2) = rd(s1, b as u16);
            let (hi, s3) = rd(s2, ((b + 1) % 256) as u16);
            operand_address(s, AddressingMode::IndirectY).0 == (lo + 256 * hi + s.reg.y) % 0x10000
        }),
{
    let (b, s1) = rd(s, s.reg.pc);
    let (lo, s2) = rd(s1, b as u16);
    let (hi, s3) = rd(s2, ((b + 1) % 256) as u16);
    assert(lo + 256 * hi < 0x10000) by (nonlinear_arith)
        requires
            lo < 256,
            hi < 256,
    ;
}

} // verus!
