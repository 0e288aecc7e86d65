//! The SM83 CPU: its registers, and the execution of one instruction or interrupt entry
//! against a memory.
//!
//! The behaviour of the CPU is stated by `spec_step`: one step takes the CPU state, the
//! memory and the pending interrupts to a new CPU state, a new memory and an exit reason.
use vstd::prelude::*;
use crate::alu::{
    and, bit, daa, flags_from, or, res, rl, rlc, rr, rrc, sign_extend, sla, spec_add,
    spec_add16, spec_and, spec_bit, spec_daa_flags, spec_irq_target, spec_or, spec_reset_target,
    spec_rl, spec_rlc, spec_rr, spec_rrc, spec_sign_extend, spec_sla, spec_sra, spec_srl,
    spec_sub, spec_swap, spec_with, spec_xor, sra, srl, swap, translate_irq_target,
    translate_reset_target, xor, Cycles, Flag, Flags, spec_bit_mask, add16,
};
use crate::bits::{lemma_add_signed_carries, lemma_inc_dec8, lemma_shift_constants};
use crate::alu::{carry_bit16, carry_bit8, flag_mask, lemma_are_flags_from};
use crate::decoder::{
    decode, decode_prefixed, spec_decode, spec_decode_prefixed, AddressingMode, Condition,
    OpCode, Register, RegisterPairs, ResetTarget,
};
use crate::interrupts::{interrupt_mask, spec_highest_priority, Interrupt, Interrupts};
use crate::memory::{Address, Memory};

verus! {

/// CPU Registers in a struct
#[derive(Debug, Clone, Eq, PartialEq, Structural)]
pub struct Registers {
    /// CPU Flags
    pub flags: Flags,
    /// The A register of the CPU
    pub a_reg: u8,
    /// The B register of the CPU
    pub b_reg: u8,
    /// The C register of the CPU
    pub c_reg: u8,
    /// The D register of the CPU
    pub d_reg: u8,
    /// The E register of the CPU
    pub e_reg: u8,
    /// The H register of the CPU
    pub h_reg: u8,
    /// The L register of the CPU
    pub l_reg: u8,
    /// The stack pointer of the CPU
    pub sp_reg: u16,
    /// The program counter of the CPU
    pub pc_reg: u16,
    /// The IME register of the CPU (set if IRQs are globally enabled)
    pub irq_en: bool,
}

/// The register values after reset.
pub open spec fn initial_registers() -> Registers {
    Registers {
        flags: Flags(0),
        a_reg: 0x01,
        b_reg: 0xff,
        c_reg: 0x13,
        d_reg: 0x00,
        e_reg: 0xc1,
        h_reg: 0x84,
        l_reg: 0x03,
        sp_reg: 0xfffe,
        pc_reg: 0,
        irq_en: false,
    }
}

impl Registers {
    /// The register values after reset.
    pub fn new() -> (r: Self)
        ensures
            r == initial_registers(),
    {
        Self {
            flags: Flags(0),
            a_reg: 0x01,
            b_reg: 0xff,
            c_reg: 0x13,
            d_reg: 0x00,
            e_reg: 0xc1,
            h_reg: 0x84,
            l_reg: 0x03,
            sp_reg: 0xfffe,
            pc_reg: 0,
            irq_en: false,
        }
    }
}

/// The exit reason of the CPU after stepping an instruction.
#[derive(Debug, Clone, Eq, PartialEq, Structural)]
pub enum ExitReason {
    /// The step of the instruction concluded successfully, and took the given number of clock cycles.
    Step(Cycles),
    /// An interrupt was taken, and and took the given number of clock cycles.
    InterruptTaken(Cycles, Interrupt),
    /// The CPU is stopped, and executed the given number of cycles
    Stop(Cycles),
    /// The CPU is halted, and executed the given number of cycles
    Halt(Cycles),
    /// The CPU attempted to execute an illegal OpCode.
    IllegalOpcode,
}

/// An abstraction of the CPU core
pub struct Cpu {
    pub regs: Registers,
    pub halted: bool,
}

// ---------------------------------------------------------------------------------------
// Register model
// ---------------------------------------------------------------------------------------

/// The 16-bit word with high byte `hi` and low byte `lo`.
pub open spec fn word(hi: u8, lo: u8) -> u16 {
    (hi * 256 + lo) as u16
}

/// `v + 1` modulo 65536.
pub open spec fn inc16(v: u16) -> u16 {
    ((v + 1) % 65536) as u16
}

/// `v - 1` modulo 65536.
pub open spec fn dec16(v: u16) -> u16 {
    ((v + 65535) % 65536) as u16
}

/// The address `0xFF00 + v` of the zero page.
pub open spec fn zero_page(v: u8) -> u16 {
    (v + 0xFF00) as u16
}

/// The value of an 8-bit register.
pub open spec fn reg_value(r: Registers, reg: Register) -> u8 {
    match reg {
        Register::A => r.a_reg,
        Register::B => r.b_reg,
        Register::C => r.c_reg,
        Register::D => r.d_reg,
        Register::E => r.e_reg,
        Register::H => r.h_reg,
        Register::L => r.l_reg,
    }
}

/// The registers with an 8-bit register replaced.
pub open spec fn with_reg(r: Registers, reg: Register, v: u8) -> Registers {
    match reg {
        Register::A => Registers { a_reg: v, ..r },
        Register::B => Registers { b_reg: v, ..r },
        Register::C => Registers { c_reg: v, ..r },
        Register::D => Registers { d_reg: v, ..r },
        Register::E => Registers { e_reg: v, ..r },
        Register::H => Registers { h_reg: v, ..r },
        Register::L => Registers { l_reg: v, ..r },
    }
}

/// The value of a register pair; `HL+` and `HL-` read HL, AF holds the flags in its low byte.
pub open spec fn pair_value(r: Registers, rp: RegisterPairs) -> u16 {
    match rp {
        RegisterPairs::BC => word(r.b_reg, r.c_reg),
        RegisterPairs::DE => word(r.d_reg, r.e_reg),
        RegisterPairs::SP => r.sp_reg,
        RegisterPairs::AF => word(r.a_reg, r.flags.0),
        _ => word(r.h_reg, r.l_reg),
    }
}

/// The registers with HL replaced.
pub open spec fn with_hl(r: Registers, v: u16) -> Registers {
    Registers { h_reg: (v / 256) as u8, l_reg: (v % 256) as u8, ..r }
}

/// The registers after reading a register pair: `HL+` increments HL, `HL-` decrements it.
pub open spec fn after_pair_read(r: Registers, rp: RegisterPairs) -> Registers {
    match rp {
        RegisterPairs::HLINC => with_hl(r, inc16(word(r.h_reg, r.l_reg))),
        RegisterPairs::HLDEC => with_hl(r, dec16(word(r.h_reg, r.l_reg))),
        _ => r,
    }
}

/// The registers with a register pair replaced; the low nibble of F is always 0.
pub open spec fn with_pair(r: Registers, rp: RegisterPairs, v: u16) -> Registers {
    match rp {
        RegisterPairs::BC => Registers { b_reg: (v / 256) as u8, c_reg: (v % 256) as u8, ..r },
        RegisterPairs::DE => Registers { d_reg: (v / 256) as u8, e_reg: (v % 256) as u8, ..r },
        RegisterPairs::SP => Registers { sp_reg: v, ..r },
        RegisterPairs::AF => Registers {
            a_reg: (v / 256) as u8,
            flags: Flags((((v % 256) / 16) * 16) as u8),
            ..r
        },
        _ => with_hl(r, v),
    }
}

/// Reading a register pair gives back the word last written to it, but for the low nibble of
/// F, which is always 0.
pub proof fn lemma_pair_write_read(r: Registers, rp: RegisterPairs, v: u16)
    ensures
        pair_value(with_pair(r, rp, v), rp) == if rp == RegisterPairs::AF {
            (v - v % 16) as u16
        } else {
            v
        },
{
}

/// Whether a jump condition holds.
pub open spec fn spec_condition(r: Registers, condition: Condition) -> bool {
    match condition {
        Condition::NZ => !r.flags.has(Flag::Z),
        Condition::Z => r.flags.has(Flag::Z),
        Condition::NC => !r.flags.has(Flag::C),
        Condition::C => r.flags.has(Flag::C),
    }
}

// ---------------------------------------------------------------------------------------
// Operand access model
// ---------------------------------------------------------------------------------------

/// The CPU with its registers replaced.
pub open spec fn with_regs(c: Cpu, r: Registers) -> Cpu {
    Cpu { regs: r, ..c }
}

/// The CPU with its program counter replaced.
pub open spec fn with_pc(c: Cpu, pc: u16) -> Cpu {
    with_regs(c, Registers { pc_reg: pc, ..c.regs })
}

/// Reads the byte at PC and advances PC.
pub open spec fn spec_imm8<M: Memory>(c: Cpu, m: M::V) -> (Cpu, u8) {
    (with_pc(c, inc16(c.regs.pc_reg)), M::read_view(m, c.regs.pc_reg))
}

/// Reads the little-endian word at PC and advances PC twice.
pub open spec fn spec_imm16<M: Memory>(c: Cpu, m: M::V) -> (Cpu, u16) {
    let lo = spec_imm8::<M>(c, m);
    let hi = spec_imm8::<M>(lo.0, m);
    (hi.0, word(hi.1, lo.1))
}

/// Whether an addressing mode can be the source of an 8-bit operation.
pub open spec fn loads8(mode: AddressingMode) -> bool {
    !(mode is RegisterPair) && !(mode is Immediate16)
}

/// Whether an addressing mode can be the destination of an 8-bit operation.
pub open spec fn stores8(mode: AddressingMode) -> bool {
    loads8(mode) && !(mode is Immediate)
}

/// Whether an addressing mode can be the source of a 16-bit operation.
pub open spec fn loads16(mode: AddressingMode) -> bool {
    mode is RegisterPair || mode is Immediate16
}

/// Whether an addressing mode can be the destination of a 16-bit operation.
pub open spec fn stores16(mode: AddressingMode) -> bool {
    mode is RegisterPair || mode is IndirectImmediate
}

/// An 8-bit load: the CPU after it, the cycles it takes beyond the instruction's base
/// cost, and the value.
pub open spec fn spec_load8<M: Memory>(c: Cpu, m: M::V, mode: AddressingMode) -> (Cpu, int, u8) {
    match mode {
        AddressingMode::Register(r) => (c, 0, reg_value(c.regs, r)),
        AddressingMode::Immediate => (spec_imm8::<M>(c, m).0, 4, spec_imm8::<M>(c, m).1),
        AddressingMode::IndirectRegister(rp) => (
            with_regs(c, after_pair_read(c.regs, rp)),
            4,
            M::read_view(m, pair_value(c.regs, rp)),
        ),
        AddressingMode::IndirectZeroPageRegister(r) => (
            c,
            4,
            M::read_view(m, zero_page(reg_value(c.regs, r))),
        ),
        AddressingMode::IndirectZeroPageImmediate => (
            spec_imm8::<M>(c, m).0,
            8,
            M::read_view(m, zero_page(spec_imm8::<M>(c, m).1)),
        ),
        AddressingMode::IndirectImmediate => (
            spec_imm16::<M>(c, m).0,
            12,
            M::read_view(m, spec_imm16::<M>(c, m).1),
        ),
        _ => (c, 0, 0),
    }
}

/// An 8-bit store: the CPU and memory after it, and the cycles it takes beyond the
/// instruction's base cost.
pub open spec fn spec_store8<M: Memory>(c: Cpu, m: M::V, mode: AddressingMode, v: u8) -> (
    Cpu,
    M::V,
    int,
) {
    match mode {
        AddressingMode::Register(r) => (with_regs(c, with_reg(c.regs, r, v)), m, 0),
        AddressingMode::IndirectRegister(rp) => (
            with_regs(c, after_pair_read(c.regs, rp)),
            M::write_view(m, pair_value(c.regs, rp), v),
            4,
        ),
        AddressingMode::IndirectZeroPageRegister(r) => (
            c,
            M::write_view(m, zero_page(reg_value(c.regs, r)), v),
            4,
        ),
        AddressingMode::IndirectZeroPageImmediate => (
            spec_imm8::<M>(c, m).0,
            M::write_view(m, zero_page(spec_imm8::<M>(c, m).1), v),
            8,
        ),
        AddressingMode::IndirectImmediate => (
            spec_imm16::<M>(c, m).0,
            M::write_view(m, spec_imm16::<M>(c, m).1, v),
            12,
        ),
        _ => (c, m, 0),
    }
}

/// A 16-bit load: the CPU after it, the extra cycles, and the value.
pub open spec fn spec_load16<M: Memory>(c: Cpu, m: M::V, mode: AddressingMode) -> (Cpu, int, u16) {
    match mode {
        AddressingMode::RegisterPair(rp) => (
            with_regs(c, after_pair_read(c.regs, rp)),
            0,
            pair_value(c.regs, rp),
        ),
        AddressingMode::Immediate16 => (spec_imm16::<M>(c, m).0, 8, spec_imm16::<M>(c, m).1),
        _ => (c, 0, 0),
    }
}

/// A 16-bit store: the CPU and memory after it, and the extra cycles. A store to memory
/// writes the low byte first, at the lower address.
pub open spec fn spec_store16<M: Memory>(c: Cpu, m: M::V, mode: AddressingMode, v: u16) -> (
    Cpu,
    M::V,
    int,
) {
    match mode {
        AddressingMode::RegisterPair(rp) => (with_regs(c, with_pair(c.regs, rp, v)), m, 0),
        AddressingMode::IndirectImmediate => {
            let i = spec_imm16::<M>(c, m);
            (
                i.0,
                M::write_view(M::write_view(m, i.1, (v % 256) as u8), inc16(i.1), (v / 256) as u8),
                16,
            )
        },
        _ => (c, m, 0),
    }
}

/// Pushes a word: the high byte goes to SP - 1, the low byte to SP - 2, and SP is
/// decremented by two.
pub open spec fn spec_push<M: Memory>(c: Cpu, m: M::V, v: u16) -> (Cpu, M::V) {
    let p1 = dec16(c.regs.sp_reg);
    let p2 = dec16(p1);
    (
        with_regs(c, Registers { sp_reg: p2, ..c.regs }),
        M::write_view(M::write_view(m, p1, (v / 256) as u8), p2, (v % 256) as u8),
    )
}

/// Pops a word: the low byte is read at SP, the high byte at SP + 1, and SP is incremented
/// by two.
pub open spec fn spec_pop<M: Memory>(c: Cpu, m: M::V) -> (Cpu, u16) {
    let sp = c.regs.sp_reg;
    (
        with_regs(c, Registers { sp_reg: inc16(inc16(sp)), ..c.regs }),
        word(M::read_view(m, inc16(sp)), M::read_view(m, sp)),
    )
}

/// Pushing a word and then popping gives the word back and leaves the CPU as it was before the
/// push (SP included), on any memory whose reads give back the last value written at an address
/// and whose writes leave the other addresses alone.
pub proof fn lemma_stack_push_pop<M: Memory>(c: Cpu, m: M::V, v: u16)
    requires
        forall|m0: M::V, a: Address, x: u8| #[trigger]
            M::read_view(M::write_view(m0, a, x), a) == x,
        forall|m0: M::V, a: Address, b: Address, x: u8|
            a != b ==> #[trigger] M::read_view(M::write_view(m0, a, x), b) == M::read_view(m0, b),
    ensures
        ({
            let (c1, m1) = spec_push::<M>(c, m, v);
            let (c2, r) = spec_pop::<M>(c1, m1);
            r == v && c2 == c
        }),
{
    let sp = c.regs.sp_reg;
    let p1 = dec16(sp);
    let p2 = dec16(p1);
    let hi = (v / 256) as u8;
    let lo = (v % 256) as u8;
    let m1 = M::write_view(m, p1, hi);
    let m2 = M::write_view(m1, p2, lo);
    assert(inc16(p2) == p1 && inc16(p1) == sp);
    assert(p1 != p2);
    assert(M::read_view(m2, p2) == lo);
    assert(M::read_view(m2, p1) == M::read_view(m1, p1));
    assert(M::read_view(m1, p1) == hi);
    assert(word(hi, lo) == v);
    assert(with_regs(with_regs(c, Registers { sp_reg: p2, ..c.regs }), Registers {
        sp_reg: sp,
        ..c.regs
    }) == c);
}

/// SCF sets the carry flag and CCF complements it; both clear N and H and keep Z, the low
/// nibble of F and every other register, and take 4 cycles.
pub proof fn lemma_carry_flag_ops(c: Cpu)
    ensures
        ({
            let f0 = c.regs.flags.0;
            let (c1, cycles) = spec_exec_misc(c, OpCode::Ccf);
            let f1 = c1.regs.flags.0;
            &&& f1 & 0x10 == (!f0) & 0x10
            &&& f1 & 0x80 == f0 & 0x80
            &&& f1 & 0x60 == 0
            &&& f1 & 0x0F == f0 & 0x0F
            &&& c1 == (Cpu { regs: Registers { flags: c1.regs.flags, ..c.regs }, ..c })
            &&& cycles == 4
        }),
        ({
            let f0 = c.regs.flags.0;
            let (c1, cycles) = spec_exec_misc(c, OpCode::Scf);
            let f1 = c1.regs.flags.0;
            &&& f1 & 0x10 == 0x10
            &&& f1 & 0x80 == f0 & 0x80
            &&& f1 & 0x60 == 0
            &&& f1 & 0x0F == f0 & 0x0F
            &&& c1 == (Cpu { regs: Registers { flags: c1.regs.flags, ..c.regs }, ..c })
            &&& cycles == 4
        }),
{
    let f0 = c.regs.flags.0;
    let carry = f0 & 0x10 != 0;
    let a = if !carry { f0 | 0x10 } else { f0 & !0x10u8 };
    let b = a & !0x40u8;
    let f1 = b & !0x20u8;
    assert(f1 & 0x10 == (!f0) & 0x10 && f1 & 0x80 == f0 & 0x80 && f1 & 0x60 == 0 && f1 & 0x0F
        == f0 & 0x0F) by (bit_vector)
        requires
            carry == (f0 & 0x10 != 0),
            a == if !carry { f0 | 0x10 } else { f0 & !0x10u8 },
            b == a & !0x40u8,
            f1 == b & !0x20u8,
    ;
    let s1 = f0 | 0x10;
    let s2 = s1 & !0x40u8;
    let s3 = s2 & !0x20u8;
    assert(s3 & 0x10 == 0x10 && s3 & 0x80 == f0 & 0x80 && s3 & 0x60 == 0 && s3 & 0x0F == f0
        & 0x0F) by (bit_vector)
        requires
            s1 == f0 | 0x10,
            s2 == s1 & !0x40u8,
            s3 == s2 & !0x20u8,
    ;
}

/// CPL complements A (A plus its complement is 0xFF), sets N and H, and keeps Z, C, the low
/// nibble of F and every other register, in 4 cycles.
pub proof fn lemma_complement_a(c: Cpu)
    ensures
        ({
            let f0 = c.regs.flags.0;
            let (c1, cycles) = spec_exec_misc(c, OpCode::Cpl);
            let f1 = c1.regs.flags.0;
            &&& c1.regs.a_reg + c.regs.a_reg == 0xFF
            &&& f1 & 0x60 == 0x60
            &&& f1 & 0x90 == f0 & 0x90
            &&& f1 & 0x0F == f0 & 0x0F
            &&& c1 == (Cpu {
                regs: Registers { a_reg: c1.regs.a_reg, flags: c1.regs.flags, ..c.regs },
                ..c
            })
            &&& cycles == 4
        }),
{
    let a = c.regs.a_reg;
    let f0 = c.regs.flags.0;
    let s1 = f0 | 0x40;
    let s2 = s1 | 0x20;
    assert((!a) + a == 0xFF && s2 & 0x60 == 0x60 && s2 & 0x90 == f0 & 0x90 && s2 & 0x0F == f0
        & 0x0F) by (bit_vector)
        requires
            s1 == f0 | 0x40,
            s2 == s1 | 0x20,
    ;
}

/// The condition of a conditional relative jump, return, jump or call tests the flag that bit
/// 4 of the opcode names (the carry when set, the zero flag when clear), and holds when that
/// flag is set exactly when bit 3 of the opcode is set.
pub proof fn lemma_decoded_conditions(byte: u8, r: Registers)
    requires
        byte & 0xE7 == 0x20 || byte & 0xE7 == 0xC0 || byte & 0xE7 == 0xC2 || byte & 0xE7 == 0xC4,
    ensures
        byte & 0xE7 == 0x20 ==> spec_decode(byte) is JrImm,
        byte & 0xE7 == 0xC0 ==> spec_decode(byte) is Ret,
        byte & 0xE7 == 0xC2 ==> spec_decode(byte) is JpImm,
        byte & 0xE7 == 0xC4 ==> spec_decode(byte) is CallImm,
        decoded_condition(spec_decode(byte)) matches Some(cond) && spec_condition(r, cond) == ((
            r.flags.0 & (if byte & 0x10 != 0 {
                0x10u8
            } else {
                0x80u8
            }) != 0) == (byte & 0x08 != 0)),
{
    assert({
        &&& (byte & 0xE7 == 0x20 ==> byte / 64 == 0 && byte % 8 == 0 && (byte / 8) % 8 >= 4)
        &&& (byte & 0xE7 == 0xC0 ==> byte / 64 == 3 && byte % 8 == 0 && (byte / 8) % 8 < 4)
        &&& (byte & 0xE7 == 0xC2 ==> byte / 64 == 3 && byte % 8 == 2 && (byte / 8) % 8 < 4)
        &&& (byte & 0xE7 == 0xC4 ==> byte / 64 == 3 && byte % 8 == 4 && (byte / 8) % 8 < 4)
        &&& (byte & 0x10 != 0) == ((byte / 8) % 4 >= 2)
        &&& (byte & 0x08 != 0) == ((byte / 8) % 2 == 1)
    }) by (bit_vector);
    let k = (byte / 8) % 4;
    assert(k == 0 || k == 1 || k == 2 || k == 3);
    if byte & 0xE7 == 0x20 {
        assert((byte / 8) % 8 - 4 == k);
    } else {
        assert((byte / 8) % 8 == k);
    }
    assert(flag_mask(Flag::Z) == 0x80u8 && flag_mask(Flag::C) == 0x10u8);
}

/// A restart instruction (opcode 0b11xxx111) jumps to eight times the number in bits 3 to 5 of
/// its opcode.
pub proof fn lemma_decoded_reset_targets(byte: u8)
    requires
        byte & 0xC7 == 0xC7,
    ensures
        spec_decode(byte) matches OpCode::Reset(t) && spec_reset_target(t) == (byte / 8 % 8) * 8,
{
    assert(byte / 64 == 3 && byte % 8 == 7) by (bit_vector)
        requires
            byte & 0xC7 == 0xC7,
    ;
}

/// Interrupt `k` in order of priority (Vblank, LCD, timer, serial, joypad), the one of bit `k`
/// of the interrupt registers, is served at 0x40 plus 8 times `k`.
pub proof fn lemma_irq_targets(i: Interrupt)
    ensures
        exists|k: nat|
            k < 5 && interrupt_mask(i) == #[trigger] vstd::arithmetic::power2::pow2(k)
                && spec_irq_target(i) == 0x40 + 8 * k,
{
    vstd::arithmetic::power2::lemma2_to64();
    let k: nat = match i {
        Interrupt::Vblank => 0,
        Interrupt::Lcd => 1,
        Interrupt::Timer => 2,
        Interrupt::Serial => 3,
        Interrupt::Joypad => 4,
    };
    assert(interrupt_mask(i) == vstd::arithmetic::power2::pow2(k));
}

/// The condition of a conditional jump, call or return opcode.
pub open spec fn decoded_condition(op: OpCode) -> Option<Condition> {
    match op {
        OpCode::JrImm(c) => c,
        OpCode::Ret(c) => c,
        OpCode::JpImm(c) => c,
        OpCode::CallImm(c) => c,
        _ => None,
    }
}

// ---------------------------------------------------------------------------------------
// Instruction semantics
// ---------------------------------------------------------------------------------------

/// Whether the operands of an opcode have the kinds that its operation accepts.
pub open spec fn operands_ok(op: OpCode) -> bool {
    match op {
        OpCode::Ld8(d, s) => stores8(d) && loads8(s),
        OpCode::Ld16(d, s) => stores16(d) && loads16(s),
        OpCode::Add8(d, s) => stores8(d) && loads8(s),
        OpCode::Sub8(d, s) => stores8(d) && loads8(s),
        OpCode::And8(d, s) => stores8(d) && loads8(s),
        OpCode::Or8(d, s) => stores8(d) && loads8(s),
        OpCode::Adc8(d, s) => stores8(d) && loads8(s),
        OpCode::Sbc8(d, s) => stores8(d) && loads8(s),
        OpCode::Xor8(d, s) => stores8(d) && loads8(s),
        OpCode::Cp8(d, s) => loads8(d) && loads8(s),
        OpCode::Add16(d, s) => stores16(d) && loads16(d) && loads16(s),
        OpCode::Inc8(r) => stores8(r),
        OpCode::Dec8(r) => stores8(r),
        OpCode::Inc16(r) => stores16(r) && loads16(r),
        OpCode::Dec16(r) => stores16(r) && loads16(r),
        OpCode::Rlc(r) => stores8(r),
        OpCode::Rrc(r) => stores8(r),
        OpCode::Rl(r) => stores8(r),
        OpCode::Rr(r) => stores8(r),
        OpCode::Sla(r) => stores8(r),
        OpCode::Sra(r) => stores8(r),
        OpCode::Swap(r) => stores8(r),
        OpCode::Srl(r) => stores8(r),
        OpCode::Bit(_, r) => loads8(r),
        OpCode::Res(_, r) => stores8(r),
        OpCode::SetBit(_, r) => stores8(r),
        OpCode::Prefix => false,
        _ => true,
    }
}

/// Whether the opcode is one of the 8-bit arithmetic and logic operations on A.
pub open spec fn is_alu8(op: OpCode) -> bool {
    ||| op is Add8
    ||| op is Sub8
    ||| op is And8
    ||| op is Or8
    ||| op is Adc8
    ||| op is Sbc8
    ||| op is Xor8
    ||| op is Cp8
}

/// The (destination, source) operands of a two-operand opcode.
pub open spec fn operands2(op: OpCode) -> (AddressingMode, AddressingMode) {
    match op {
        OpCode::Ld8(d, s) => (d, s),
        OpCode::Ld16(d, s) => (d, s),
        OpCode::Add8(d, s) => (d, s),
        OpCode::Sub8(d, s) => (d, s),
        OpCode::And8(d, s) => (d, s),
        OpCode::Or8(d, s) => (d, s),
        OpCode::Adc8(d, s) => (d, s),
        OpCode::Sbc8(d, s) => (d, s),
        OpCode::Xor8(d, s) => (d, s),
        OpCode::Cp8(d, s) => (d, s),
        OpCode::Add16(d, s) => (d, s),
        _ => (AddressingMode::Immediate, AddressingMode::Immediate),
    }
}

/// The result and flags of an 8-bit arithmetic or logic opcode on the destination and
/// source values, with the carry flag `carry`.
pub open spec fn alu8_result(op: OpCode, dest: u8, src: u8, carry: bool) -> (u8, Flags) {
    match op {
        OpCode::Add8(_, _) => spec_add(src, dest, false),
        OpCode::Adc8(_, _) => spec_add(src, dest, carry),
        OpCode::Sub8(_, _) => spec_sub(dest, src, false),
        OpCode::Sbc8(_, _) => spec_sub(dest, src, carry),
        OpCode::And8(_, _) => spec_and(src, dest),
        OpCode::Or8(_, _) => spec_or(src, dest),
        OpCode::Xor8(_, _) => spec_xor(src, dest),
        _ => spec_sub(dest, src, false),
    }
}

/// The CPU with its flags replaced.
pub open spec fn with_flags(c: Cpu, f: Flags) -> Cpu {
    with_regs(c, Registers { flags: f, ..c.regs })
}

/// An 8-bit arithmetic or logic opcode with operands `dest` and `src`: the source is
/// loaded first, then the destination; the result is stored back except for `cp`.
pub open spec fn spec_exec_alu8_on<M: Memory>(
    c: Cpu,
    m: M::V,
    op: OpCode,
    dest: AddressingMode,
    src: AddressingMode,
) -> (Cpu, M::V, int) {
    let l1 = spec_load8::<M>(c, m, src);
    let l2 = spec_load8::<M>(l1.0, m, dest);
    let r = alu8_result(op, l2.2, l1.2, l2.0.regs.flags.has(Flag::C));
    let c3 = with_flags(l2.0, r.1);
    if op is Cp8 {
        (c3, m, 4 + l1.1 + l2.1)
    } else {
        let s = spec_store8::<M>(c3, m, dest, r.0);
        (s.0, s.1, 4 + l1.1 + l2.1 + s.2)
    }
}

/// An 8-bit arithmetic or logic opcode.
pub open spec fn spec_exec_alu8<M: Memory>(c: Cpu, m: M::V, op: OpCode) -> (Cpu, M::V, int) {
    spec_exec_alu8_on::<M>(c, m, op, operands2(op).0, operands2(op).1)
}

/// 8-bit and 16-bit loads.
pub open spec fn spec_exec_ld<M: Memory>(c: Cpu, m: M::V, op: OpCode) -> (Cpu, M::V, int) {
    let (dest, src) = operands2(op);
    if op is Ld8 {
        let l = spec_load8::<M>(c, m, src);
        let s = spec_store8::<M>(l.0, m, dest, l.2);
        (s.0, s.1, 4 + l.1 + s.2)
    } else {
        let l = spec_load16::<M>(c, m, src);
        let s = spec_store16::<M>(l.0, m, dest, l.2);
        let cycles = 4 + l.1 + s.2;
        (s.0, s.1, if cycles < 8 { 8 } else { cycles })
    }
}

/// The flags of an `add SP, e8` or `ld HL, SP + e8`: H and C are the carries out of bits 3
/// and 7 of the low bytes, Z and N are cleared.
pub open spec fn sp_offset_flags(sp: u16, imm: u16) -> Flags {
    flags_from(false, false, imm % 16 + sp % 16 >= 16, imm % 256 + sp % 256 >= 256, 0)
}

/// `SP + e8`, with `e8` a signed byte.
pub open spec fn sp_plus(sp: u16, imm: u8) -> u16 {
    ((sp + spec_sign_extend(imm)) % 65536) as u16
}

/// The flags of an 8-bit increment (`inc`) or decrement (`dec`): C and the low nibble are
/// kept.
pub open spec fn inc_dec_flags(f: Flags, prev: u8, inc: bool) -> Flags {
    let next: int = if inc {
        (prev + 1) % 256
    } else {
        (prev + 255) % 256
    };
    flags_from(
        next == 0,
        !inc,
        if inc {
            prev % 16 == 15
        } else {
            prev % 16 == 0
        },
        f.has(Flag::C),
        f.0 & 0x0F,
    )
}

/// `add HL, rr`: the source pair is read first, then the destination.
pub open spec fn spec_exec_add16<M: Memory>(c: Cpu, m: M::V, dest: AddressingMode, src: AddressingMode) -> (Cpu, M::V, int) {
    let l1 = spec_load16::<M>(c, m, src);
    let l2 = spec_load16::<M>(l1.0, m, dest);
    let r = spec_add16(l1.2, l2.2, l2.0.regs.flags);
    let s = spec_store16::<M>(with_flags(l2.0, r.1), m, dest, r.0);
    (s.0, s.1, 8 + l1.1 + l2.1 + s.2)
}

/// `add SP, e8` (`to_sp`) or `ld HL, SP + e8`.
pub open spec fn spec_exec_sp_offset<M: Memory>(c: Cpu, m: M::V, to_sp: bool) -> (Cpu, M::V, int) {
    let i = spec_imm8::<M>(c, m);
    let sp = i.0.regs.sp_reg;
    let result = sp_plus(sp, i.1);
    let c2 = if to_sp {
        with_regs(i.0, Registers { sp_reg: result, ..i.0.regs })
    } else {
        with_regs(i.0, with_hl(i.0.regs, result))
    };
    (with_flags(c2, sp_offset_flags(sp, spec_sign_extend(i.1))), m, if to_sp { 16 } else { 12 })
}

/// 8-bit increment (`inc`) or decrement.
pub open spec fn spec_exec_inc_dec8<M: Memory>(c: Cpu, m: M::V, r: AddressingMode, inc: bool) -> (Cpu, M::V, int) {
    let l = spec_load8::<M>(c, m, r);
    let next = if inc {
        ((l.2 + 1) % 256) as u8
    } else {
        ((l.2 + 255) % 256) as u8
    };
    let c2 = with_flags(l.0, inc_dec_flags(l.0.regs.flags, l.2, inc));
    let s = spec_store8::<M>(c2, m, r, next);
    (s.0, s.1, 4 + l.1 + s.2)
}

/// 16-bit increment (`inc`) or decrement; the flags are kept.
pub open spec fn spec_exec_inc_dec16<M: Memory>(c: Cpu, m: M::V, r: AddressingMode, inc: bool) -> (Cpu, M::V, int) {
    let l = spec_load16::<M>(c, m, r);
    let s = spec_store16::<M>(l.0, m, r, if inc { inc16(l.2) } else { dec16(l.2) });
    (s.0, s.1, 8 + l.1 + s.2)
}

/// Arithmetic instructions on registers, other than the 8-bit operations on A.
pub open spec fn spec_exec_arith<M: Memory>(c: Cpu, m: M::V, op: OpCode) -> (Cpu, M::V, int) {
    match op {
        OpCode::Add16(dest, src) => spec_exec_add16::<M>(c, m, dest, src),
        OpCode::AddSpImm => spec_exec_sp_offset::<M>(c, m, true),
        OpCode::Ld16HlSpImm => spec_exec_sp_offset::<M>(c, m, false),
        OpCode::Inc8(r) => spec_exec_inc_dec8::<M>(c, m, r, true),
        OpCode::Dec8(r) => spec_exec_inc_dec8::<M>(c, m, r, false),
        OpCode::Inc16(r) => spec_exec_inc_dec16::<M>(c, m, r, true),
        OpCode::Dec16(r) => spec_exec_inc_dec16::<M>(c, m, r, false),
        _ => (c, m, 0),
    }
}

/// Operations on A and on the flags, and interrupt enabling.
pub open spec fn spec_exec_misc(c: Cpu, op: OpCode) -> (Cpu, int) {
    let r = c.regs;
    let a = r.a_reg;
    let f = r.flags;
    match op {
        OpCode::Nop => (c, 4),
        OpCode::Daa => {
            let d = spec_daa_flags(a, f);
            (with_regs(c, Registers { a_reg: d.0, flags: d.1, ..r }), 4)
        },
        OpCode::Cpl => (
            with_regs(
                c,
                Registers { a_reg: !a, flags: spec_with(spec_with(f, Flag::N, true), Flag::H, true), ..r },
            ),
            4,
        ),
        OpCode::Scf => (
            with_flags(
                c,
                spec_with(spec_with(spec_with(f, Flag::C, true), Flag::N, false), Flag::H, false),
            ),
            4,
        ),
        OpCode::Ccf => (
            with_flags(
                c,
                spec_with(
                    spec_with(spec_with(f, Flag::C, !f.has(Flag::C)), Flag::N, false),
                    Flag::H,
                    false,
                ),
            ),
            4,
        ),
        OpCode::Di => (with_regs(c, Registers { irq_en: false, ..r }), 4),
        OpCode::Ei => (with_regs(c, Registers { irq_en: true, ..r }), 4),
        OpCode::Rlca => {
            let s = spec_rlc(a, false);
            (with_regs(c, Registers { a_reg: s.0, flags: s.1, ..r }), 4)
        },
        OpCode::Rrca => {
            let s = spec_rrc(a, false);
            (with_regs(c, Registers { a_reg: s.0, flags: s.1, ..r }), 4)
        },
        OpCode::Rla => {
            let s = spec_rl(a, f.has(Flag::C), false);
            (with_regs(c, Registers { a_reg: s.0, flags: s.1, ..r }), 4)
        },
        _ => {
            let s = spec_rr(a, f.has(Flag::C), false);
            (with_regs(c, Registers { a_reg: s.0, flags: s.1, ..r }), 4)
        },
    }
}

/// Whether an optional jump condition holds; no condition always holds.
pub open spec fn taken(r: Registers, cond: Option<Condition>) -> bool {
    match cond {
        None => true,
        Some(cc) => spec_condition(r, cc),
    }
}

/// `jr [cc,] e8`: a relative jump from the address after the instruction.
pub open spec fn spec_exec_jr<M: Memory>(c: Cpu, m: M::V, cond: Option<Condition>) -> (Cpu, M::V, int) {
    let i = spec_imm8::<M>(c, m);
    let target = ((i.0.regs.pc_reg + spec_sign_extend(i.1)) % 65536) as u16;
    if taken(i.0.regs, cond) {
        (with_pc(i.0, target), m, 12)
    } else {
        (i.0, m, 8)
    }
}

/// `ret [cc]`.
pub open spec fn spec_exec_ret<M: Memory>(c: Cpu, m: M::V, cond: Option<Condition>) -> (Cpu, M::V, int) {
    if taken(c.regs, cond) {
        let p = spec_pop::<M>(c, m);
        (with_pc(p.0, p.1), m, if cond is None { 16 } else { 20 })
    } else {
        (c, m, 8)
    }
}

/// `reti`: return and enable interrupts.
pub open spec fn spec_exec_reti<M: Memory>(c: Cpu, m: M::V) -> (Cpu, M::V, int) {
    let p = spec_pop::<M>(c, m);
    (with_regs(p.0, Registers { pc_reg: p.1, irq_en: true, ..p.0.regs }), m, 16)
}

/// `jp [cc,] a16`.
pub open spec fn spec_exec_jp<M: Memory>(c: Cpu, m: M::V, cond: Option<Condition>) -> (Cpu, M::V, int) {
    let i = spec_imm16::<M>(c, m);
    if taken(i.0.regs, cond) {
        (with_pc(i.0, i.1), m, 16)
    } else {
        (i.0, m, 12)
    }
}

/// `call [cc,] a16`: pushes the address after the instruction.
pub open spec fn spec_exec_call<M: Memory>(c: Cpu, m: M::V, cond: Option<Condition>) -> (Cpu, M::V, int) {
    let i = spec_imm16::<M>(c, m);
    if taken(i.0.regs, cond) {
        let p = spec_push::<M>(i.0, m, i.0.regs.pc_reg);
        (with_pc(p.0, i.1), p.1, 24)
    } else {
        (i.0, m, 12)
    }
}

/// `rst n`.
pub open spec fn spec_exec_rst<M: Memory>(c: Cpu, m: M::V, target: ResetTarget) -> (Cpu, M::V, int) {
    let p = spec_push::<M>(c, m, c.regs.pc_reg);
    (with_pc(p.0, spec_reset_target(target)), p.1, 16)
}

/// `pop rr`.
pub open spec fn spec_exec_pop<M: Memory>(c: Cpu, m: M::V, rp: RegisterPairs) -> (Cpu, M::V, int) {
    let p = spec_pop::<M>(c, m);
    (with_regs(p.0, with_pair(p.0.regs, rp, p.1)), m, 12)
}

/// `push rr`.
pub open spec fn spec_exec_push<M: Memory>(c: Cpu, m: M::V, rp: RegisterPairs) -> (Cpu, M::V, int) {
    let p = spec_push::<M>(c, m, pair_value(c.regs, rp));
    (p.0, p.1, 16)
}

/// Jumps, calls, returns, resets, and stack operations.
pub open spec fn spec_exec_flow<M: Memory>(c: Cpu, m: M::V, op: OpCode) -> (Cpu, M::V, int) {
    match op {
        OpCode::JrImm(cond) => spec_exec_jr::<M>(c, m, cond),
        OpCode::Ret(cond) => spec_exec_ret::<M>(c, m, cond),
        OpCode::Reti => spec_exec_reti::<M>(c, m),
        OpCode::JpImm(cond) => spec_exec_jp::<M>(c, m, cond),
        OpCode::JpHl => (with_pc(c, pair_value(c.regs, RegisterPairs::HL)), m, 4),
        OpCode::CallImm(cond) => spec_exec_call::<M>(c, m, cond),
        OpCode::Reset(target) => spec_exec_rst::<M>(c, m, target),
        OpCode::Pop(rp) => spec_exec_pop::<M>(c, m, rp.spec_generalized()),
        OpCode::Push(rp) => spec_exec_push::<M>(c, m, rp.spec_generalized()),
        _ => (c, m, 0),
    }
}

/// The result and flags of a prefixed shift or rotation on a value, with carry flag `carry`.
pub open spec fn shift_result(op: OpCode, v: u8, carry: bool) -> (u8, Flags) {
    match op {
        OpCode::Rlc(_) => spec_rlc(v, true),
        OpCode::Rrc(_) => spec_rrc(v, true),
        OpCode::Rl(_) => spec_rl(v, carry, true),
        OpCode::Rr(_) => spec_rr(v, carry, true),
        OpCode::Sla(_) => spec_sla(v),
        OpCode::Sra(_) => spec_sra(v),
        OpCode::Swap(_) => spec_swap(v),
        _ => spec_srl(v),
    }
}

/// The operand of a prefixed opcode.
pub open spec fn prefixed_operand(op: OpCode) -> AddressingMode {
    match op {
        OpCode::Rlc(r) => r,
        OpCode::Rrc(r) => r,
        OpCode::Rl(r) => r,
        OpCode::Rr(r) => r,
        OpCode::Sla(r) => r,
        OpCode::Sra(r) => r,
        OpCode::Swap(r) => r,
        OpCode::Srl(r) => r,
        OpCode::Bit(_, r) => r,
        OpCode::Res(_, r) => r,
        OpCode::SetBit(_, r) => r,
        _ => AddressingMode::Immediate,
    }
}

/// The prefixed (0xCB) opcodes: shifts, rotations and bit operations.
pub open spec fn spec_exec_prefixed<M: Memory>(c: Cpu, m: M::V, op: OpCode) -> (Cpu, M::V, int) {
    let mode = prefixed_operand(op);
    let l = spec_load8::<M>(c, m, mode);
    match op {
        OpCode::Bit(b, _) => (with_flags(l.0, spec_bit(b, l.2, l.0.regs.flags)), m, 8 + l.1),
        OpCode::Res(b, _) => {
            let s = spec_store8::<M>(l.0, m, mode, l.2 & !spec_bit_mask(b));
            (s.0, s.1, 8 + l.1 + s.2)
        },
        OpCode::SetBit(b, _) => {
            let s = spec_store8::<M>(l.0, m, mode, l.2 | spec_bit_mask(b));
            (s.0, s.1, 8 + l.1 + s.2)
        },
        _ => {
            let r = shift_result(op, l.2, l.0.regs.flags.has(Flag::C));
            let s = spec_store8::<M>(with_flags(l.0, r.1), m, mode, r.0);
            (s.0, s.1, 8 + l.1 + s.2)
        },
    }
}

/// Whether the opcode is a jump, call, return, reset, push or pop.
pub open spec fn is_flow(op: OpCode) -> bool {
    ||| op is JrImm
    ||| op is Ret
    ||| op is Reti
    ||| op is JpImm
    ||| op is JpHl
    ||| op is CallImm
    ||| op is Reset
    ||| op is Pop
    ||| op is Push
}

/// Whether the opcode is an arithmetic operation handled by `spec_exec_arith`.
pub open spec fn is_arith(op: OpCode) -> bool {
    ||| op is Add16
    ||| op is AddSpImm
    ||| op is Ld16HlSpImm
    ||| op is Inc8
    ||| op is Dec8
    ||| op is Inc16
    ||| op is Dec16
}

/// Whether the opcode is a prefixed (0xCB) opcode.
pub open spec fn is_prefixed(op: OpCode) -> bool {
    ||| op is Rlc
    ||| op is Rrc
    ||| op is Rl
    ||| op is Rr
    ||| op is Sla
    ||| op is Sra
    ||| op is Swap
    ||| op is Srl
    ||| op is Bit
    ||| op is Res
    ||| op is SetBit
}

/// Executes an opcode: the CPU and memory after it, and the exit reason.
pub open spec fn spec_execute<M: Memory>(c: Cpu, m: M::V, op: OpCode) -> (Cpu, M::V, ExitReason) {
    if op is Halt {
        (Cpu { halted: true, ..c }, m, ExitReason::Halt(Cycles(4)))
    } else if op is Stop {
        (c, m, ExitReason::Stop(Cycles(4)))
    } else if op is Illegal || op is Prefix {
        (c, m, ExitReason::IllegalOpcode)
    } else {
        let r = if op is Ld8 || op is Ld16 {
            spec_exec_ld::<M>(c, m, op)
        } else if is_alu8(op) {
            spec_exec_alu8::<M>(c, m, op)
        } else if is_arith(op) {
            spec_exec_arith::<M>(c, m, op)
        } else if is_flow(op) {
            spec_exec_flow::<M>(c, m, op)
        } else if is_prefixed(op) {
            spec_exec_prefixed::<M>(c, m, op)
        } else {
            let x = spec_exec_misc(c, op);
            (x.0, m, x.1)
        };
        (r.0, r.1, ExitReason::Step(Cycles(r.2 as usize)))
    }
}

/// Fetches and decodes the instruction at PC, reading a second byte after the 0xCB prefix.
pub open spec fn spec_fetch<M: Memory>(c: Cpu, m: M::V) -> (Cpu, OpCode) {
    let i = spec_imm8::<M>(c, m);
    let op = spec_decode(i.1);
    if op is Prefix {
        let j = spec_imm8::<M>(i.0, m);
        (j.0, spec_decode_prefixed(j.1))
    } else {
        (i.0, op)
    }
}

/// One step of the CPU with the given pending interrupts.
///
/// A halted CPU stays halted while no interrupt is pending. Otherwise it leaves the halted
/// state; if interrupts are enabled and one is pending, it disables interrupts, pushes PC
/// and jumps to the handler of the pending interrupt with the highest priority; else it
/// executes the next instruction.
pub open spec fn spec_step<M: Memory>(c: Cpu, m: M::V, interrupts: Interrupts) -> (
    Cpu,
    M::V,
    ExitReason,
) {
    if c.halted && interrupts.0 == 0 {
        (c, m, ExitReason::Halt(Cycles(4)))
    } else {
        let c1 = Cpu { halted: false, ..c };
        match spec_highest_priority(interrupts.0) {
            Some(irq) if c1.regs.irq_en => {
                let c2 = with_regs(c1, Registers { irq_en: false, ..c1.regs });
                let p = spec_push::<M>(c2, m, c2.regs.pc_reg);
                (with_pc(p.0, spec_irq_target(irq)), p.1, ExitReason::InterruptTaken(Cycles(20), irq))
            },
            _ => {
                let f = spec_fetch::<M>(c1, m);
                spec_execute::<M>(f.0, m, f.1)
            },
        }
    }
}


/// The number of cycles of a step of the CPU: 4 to 40, a multiple of 4.
pub open spec fn cycles_ok(c: int) -> bool {
    4 <= c <= 40 && c % 4 == 0
}

/// The cycles of an exit reason are those of a step.
pub open spec fn exit_cycles_ok(r: ExitReason) -> bool {
    match r {
        ExitReason::Step(c) => cycles_ok(c.0 as int),
        ExitReason::InterruptTaken(c, _) => cycles_ok(c.0 as int),
        ExitReason::Stop(c) => cycles_ok(c.0 as int),
        ExitReason::Halt(c) => cycles_ok(c.0 as int),
        ExitReason::IllegalOpcode => true,
    }
}

/// The cycles of memory accesses of the operands: multiples of 4, at most 12 for a byte and
/// at most 16 for a word.
proof fn lemma_operand_cycles<M: Memory>(c: Cpu, m: M::V, mode: AddressingMode, v8: u8, v16: u16)
    ensures
        spec_load8::<M>(c, m, mode).1 % 4 == 0,
        0 <= spec_load8::<M>(c, m, mode).1 <= 12,
        spec_store8::<M>(c, m, mode, v8).2 % 4 == 0,
        0 <= spec_store8::<M>(c, m, mode, v8).2 <= 12,
        spec_load16::<M>(c, m, mode).1 % 4 == 0,
        0 <= spec_load16::<M>(c, m, mode).1 <= 8,
        spec_store16::<M>(c, m, mode, v16).2 % 4 == 0,
        0 <= spec_store16::<M>(c, m, mode, v16).2 <= 16,
{
}

#[verifier::spinoff_prover]
#[verifier::rlimit(50)]
proof fn lemma_alu8_cycles<M: Memory>(c: Cpu, m: M::V, op: OpCode)
    requires
        is_alu8(op),
    ensures
        cycles_ok(spec_exec_alu8::<M>(c, m, op).2),
{
    let (dest, src) = operands2(op);
    let l1 = spec_load8::<M>(c, m, src);
    let l2 = spec_load8::<M>(l1.0, m, dest);
    let r = alu8_result(op, l2.2, l1.2, l2.0.regs.flags.has(Flag::C));
    lemma_operand_cycles::<M>(c, m, src, 0, 0);
    lemma_operand_cycles::<M>(l1.0, m, dest, 0, 0);
    lemma_operand_cycles::<M>(with_flags(l2.0, r.1), m, dest, r.0, 0);
}

#[verifier::spinoff_prover]
#[verifier::rlimit(50)]
proof fn lemma_ld_cycles<M: Memory>(c: Cpu, m: M::V, op: OpCode)
    requires
        op is Ld8 || op is Ld16,
    ensures
        cycles_ok(spec_exec_ld::<M>(c, m, op).2),
{
    let (dest, src) = operands2(op);
    let l = spec_load8::<M>(c, m, src);
    let l16 = spec_load16::<M>(c, m, src);
    lemma_operand_cycles::<M>(c, m, src, 0, 0);
    lemma_operand_cycles::<M>(l.0, m, dest, l.2, 0);
    lemma_operand_cycles::<M>(l16.0, m, dest, 0, l16.2);
}

#[verifier::spinoff_prover]
#[verifier::rlimit(50)]
proof fn lemma_inc_dec8_cycles<M: Memory>(c: Cpu, m: M::V, r: AddressingMode, inc: bool)
    ensures
        spec_exec_inc_dec8::<M>(c, m, r, inc).2 % 4 == 0,
        4 <= spec_exec_inc_dec8::<M>(c, m, r, inc).2 <= 28,
{
    let l = spec_load8::<M>(c, m, r);
    let next = if inc {
        ((l.2 + 1) % 256) as u8
    } else {
        ((l.2 + 255) % 256) as u8
    };
    let c2 = with_flags(l.0, inc_dec_flags(l.0.regs.flags, l.2, inc));
    lemma_operand_cycles::<M>(c, m, r, 0, 0);
    lemma_operand_cycles::<M>(c2, m, r, next, 0);
}

proof fn lemma_add16_cycles<M: Memory>(c: Cpu, m: M::V, dest: AddressingMode, src: AddressingMode)
    ensures
        cycles_ok(spec_exec_add16::<M>(c, m, dest, src).2),
{
    let l1 = spec_load16::<M>(c, m, src);
    let l2 = spec_load16::<M>(l1.0, m, dest);
    let r = spec_add16(l1.2, l2.2, l2.0.regs.flags);
    lemma_operand_cycles::<M>(c, m, src, 0, 0);
    lemma_operand_cycles::<M>(l1.0, m, dest, 0, 0);
    lemma_operand_cycles::<M>(with_flags(l2.0, r.1), m, dest, 0, r.0);
}

proof fn lemma_inc_dec16_cycles<M: Memory>(c: Cpu, m: M::V, r: AddressingMode, inc: bool)
    ensures
        cycles_ok(spec_exec_inc_dec16::<M>(c, m, r, inc).2),
{
    let l = spec_load16::<M>(c, m, r);
    lemma_operand_cycles::<M>(c, m, r, 0, 0);
    lemma_operand_cycles::<M>(l.0, m, r, 0, if inc { inc16(l.2) } else { dec16(l.2) });
}

#[verifier::spinoff_prover]
#[verifier::rlimit(50)]
proof fn lemma_arith_cycles<M: Memory>(c: Cpu, m: M::V, op: OpCode)
    requires
        is_arith(op),
    ensures
        cycles_ok(spec_exec_arith::<M>(c, m, op).2),
{
    match op {
        OpCode::Add16(dest, src) => lemma_add16_cycles::<M>(c, m, dest, src),
        OpCode::Inc8(r) => lemma_inc_dec8_cycles::<M>(c, m, r, true),
        OpCode::Dec8(r) => lemma_inc_dec8_cycles::<M>(c, m, r, false),
        OpCode::Inc16(r) => lemma_inc_dec16_cycles::<M>(c, m, r, true),
        OpCode::Dec16(r) => lemma_inc_dec16_cycles::<M>(c, m, r, false),
        _ => {},
    }
}

#[verifier::spinoff_prover]
#[verifier::rlimit(50)]
proof fn lemma_prefixed_cycles<M: Memory>(c: Cpu, m: M::V, op: OpCode)
    requires
        is_prefixed(op),
    ensures
        cycles_ok(spec_exec_prefixed::<M>(c, m, op).2),
{
    let mode = prefixed_operand(op);
    let l = spec_load8::<M>(c, m, mode);
    lemma_operand_cycles::<M>(c, m, mode, 0, 0);
    match op {
        OpCode::Res(b, _) => {
            lemma_operand_cycles::<M>(l.0, m, mode, l.2 & !spec_bit_mask(b), 0);
        },
        OpCode::SetBit(b, _) => {
            lemma_operand_cycles::<M>(l.0, m, mode, l.2 | spec_bit_mask(b), 0);
        },
        OpCode::Bit(_, _) => {},
        _ => {
            let r = shift_result(op, l.2, l.0.regs.flags.has(Flag::C));
            lemma_operand_cycles::<M>(with_flags(l.0, r.1), m, mode, r.0, 0);
        },
    }
}

/// Every step of the CPU takes 4 to 40 cycles, a multiple of 4.
#[verifier::spinoff_prover]
#[verifier::rlimit(50)]
pub proof fn lemma_step_cycles<M: Memory>(c: Cpu, m: M::V, interrupts: Interrupts)
    ensures
        exit_cycles_ok(spec_step::<M>(c, m, interrupts).2),
{
    let c1 = Cpu { halted: false, ..c };
    let f = spec_fetch::<M>(c1, m);
    let op = f.1;
    let c2 = f.0;
    if op is Halt || op is Stop || op is Illegal || op is Prefix {
    } else if op is Ld8 || op is Ld16 {
        lemma_ld_cycles::<M>(c2, m, op);
    } else if is_alu8(op) {
        lemma_alu8_cycles::<M>(c2, m, op);
    } else if is_arith(op) {
        lemma_arith_cycles::<M>(c2, m, op);
    } else if is_flow(op) {
        assert(cycles_ok(spec_exec_flow::<M>(c2, m, op).2));
    } else if is_prefixed(op) {
        lemma_prefixed_cycles::<M>(c2, m, op);
    } else {
        assert(cycles_ok(spec_exec_misc(c2, op).1));
    }
}

/// A property of memories that every write keeps.
pub open spec fn write_closed<M: Memory>(inv: spec_fn(M::V) -> bool) -> bool {
    forall|m: M::V, a: u16, v: u8| inv(m) ==> #[trigger] inv(M::write_view(m, a, v))
}

proof fn lemma_stores_keep<M: Memory>(
    c: Cpu,
    m: M::V,
    mode: AddressingMode,
    v8: u8,
    v16: u16,
    inv: spec_fn(M::V) -> bool,
)
    requires
        inv(m),
        write_closed::<M>(inv),
    ensures
        inv(spec_store8::<M>(c, m, mode, v8).1),
        inv(spec_store16::<M>(c, m, mode, v16).1),
        inv(spec_push::<M>(c, m, v16).1),
{
    let i = spec_imm16::<M>(c, m);
    let m1 = M::write_view(m, i.1, (v16 % 256) as u8);
    assert(inv(m1));
}

#[verifier::spinoff_prover]
#[verifier::rlimit(50)]
proof fn lemma_alu8_keeps<M: Memory>(c: Cpu, m: M::V, op: OpCode, inv: spec_fn(M::V) -> bool)
    requires
        is_alu8(op),
        inv(m),
        write_closed::<M>(inv),
    ensures
        inv(spec_exec_alu8::<M>(c, m, op).1),
{
    let (dest, src) = operands2(op);
    let l1 = spec_load8::<M>(c, m, src);
    let l2 = spec_load8::<M>(l1.0, m, dest);
    let r = alu8_result(op, l2.2, l1.2, l2.0.regs.flags.has(Flag::C));
    lemma_stores_keep::<M>(with_flags(l2.0, r.1), m, dest, r.0, 0, inv);
}

proof fn lemma_ld_keeps<M: Memory>(c: Cpu, m: M::V, op: OpCode, inv: spec_fn(M::V) -> bool)
    requires
        op is Ld8 || op is Ld16,
        inv(m),
        write_closed::<M>(inv),
    ensures
        inv(spec_exec_ld::<M>(c, m, op).1),
{
    let (dest, src) = operands2(op);
    let l = spec_load8::<M>(c, m, src);
    let l16 = spec_load16::<M>(c, m, src);
    lemma_stores_keep::<M>(l.0, m, dest, l.2, 0, inv);
    lemma_stores_keep::<M>(l16.0, m, dest, 0, l16.2, inv);
}

proof fn lemma_inc_dec8_keeps<M: Memory>(
    c: Cpu,
    m: M::V,
    r: AddressingMode,
    inc: bool,
    inv: spec_fn(M::V) -> bool,
)
    requires
        inv(m),
        write_closed::<M>(inv),
    ensures
        inv(spec_exec_inc_dec8::<M>(c, m, r, inc).1),
{
    let l = spec_load8::<M>(c, m, r);
    let next = if inc {
        ((l.2 + 1) % 256) as u8
    } else {
        ((l.2 + 255) % 256) as u8
    };
    let c2 = with_flags(l.0, inc_dec_flags(l.0.regs.flags, l.2, inc));
    lemma_stores_keep::<M>(c2, m, r, next, 0, inv);
}

#[verifier::spinoff_prover]
#[verifier::rlimit(50)]
proof fn lemma_arith_keeps<M: Memory>(c: Cpu, m: M::V, op: OpCode, inv: spec_fn(M::V) -> bool)
    requires
        is_arith(op),
        inv(m),
        write_closed::<M>(inv),
    ensures
        inv(spec_exec_arith::<M>(c, m, op).1),
{
    match op {
        OpCode::Add16(dest, src) => {
            let l1 = spec_load16::<M>(c, m, src);
            let l2 = spec_load16::<M>(l1.0, m, dest);
            let r = spec_add16(l1.2, l2.2, l2.0.regs.flags);
            lemma_stores_keep::<M>(with_flags(l2.0, r.1), m, dest, 0, r.0, inv);
        },
        OpCode::Inc8(r) => {
            lemma_inc_dec8_keeps::<M>(c, m, r, true, inv);
        },
        OpCode::Dec8(r) => {
            lemma_inc_dec8_keeps::<M>(c, m, r, false, inv);
        },
        OpCode::Inc16(r) | OpCode::Dec16(r) => {
            let l = spec_load16::<M>(c, m, r);
            lemma_stores_keep::<M>(l.0, m, r, 0, inc16(l.2), inv);
            lemma_stores_keep::<M>(l.0, m, r, 0, dec16(l.2), inv);
        },
        _ => {},
    }
}

proof fn lemma_flow_keeps<M: Memory>(c: Cpu, m: M::V, op: OpCode, inv: spec_fn(M::V) -> bool)
    requires
        is_flow(op),
        inv(m),
        write_closed::<M>(inv),
    ensures
        inv(spec_exec_flow::<M>(c, m, op).1),
{
    let i = spec_imm16::<M>(c, m);
    lemma_stores_keep::<M>(i.0, m, AddressingMode::Immediate, 0, i.0.regs.pc_reg, inv);
    lemma_stores_keep::<M>(c, m, AddressingMode::Immediate, 0, c.regs.pc_reg, inv);
    match op {
        OpCode::Push(rp) => {
            lemma_stores_keep::<M>(
                c,
                m,
                AddressingMode::Immediate,
                0,
                pair_value(c.regs, rp.spec_generalized()),
                inv,
            );
        },
        _ => {},
    }
}

#[verifier::spinoff_prover]
#[verifier::rlimit(50)]
proof fn lemma_prefixed_keeps<M: Memory>(c: Cpu, m: M::V, op: OpCode, inv: spec_fn(M::V) -> bool)
    requires
        is_prefixed(op),
        inv(m),
        write_closed::<M>(inv),
    ensures
        inv(spec_exec_prefixed::<M>(c, m, op).1),
{
    let mode = prefixed_operand(op);
    let l = spec_load8::<M>(c, m, mode);
    match op {
        OpCode::Res(b, _) => {
            lemma_stores_keep::<M>(l.0, m, mode, l.2 & !spec_bit_mask(b), 0, inv);
        },
        OpCode::SetBit(b, _) => {
            lemma_stores_keep::<M>(l.0, m, mode, l.2 | spec_bit_mask(b), 0, inv);
        },
        OpCode::Bit(_, _) => {},
        _ => {
            let r = shift_result(op, l.2, l.0.regs.flags.has(Flag::C));
            lemma_stores_keep::<M>(with_flags(l.0, r.1), m, mode, r.0, 0, inv);
        },
    }
}

/// Every step of the CPU keeps a property of the memory that every write keeps.
#[verifier::spinoff_prover]
#[verifier::rlimit(50)]
pub proof fn lemma_step_keeps<M: Memory>(
    c: Cpu,
    m: M::V,
    interrupts: Interrupts,
    inv: spec_fn(M::V) -> bool,
)
    requires
        inv(m),
        write_closed::<M>(inv),
    ensures
        inv(spec_step::<M>(c, m, interrupts).1),
{
    let c1 = Cpu { halted: false, ..c };
    let c2 = with_regs(c1, Registers { irq_en: false, ..c1.regs });
    lemma_stores_keep::<M>(c2, m, AddressingMode::Immediate, 0, c2.regs.pc_reg, inv);
    let f = spec_fetch::<M>(c1, m);
    let op = f.1;
    let c3 = f.0;
    if op is Halt || op is Stop || op is Illegal || op is Prefix {
    } else if op is Ld8 || op is Ld16 {
        lemma_ld_keeps::<M>(c3, m, op, inv);
    } else if is_alu8(op) {
        lemma_alu8_keeps::<M>(c3, m, op, inv);
    } else if is_arith(op) {
        lemma_arith_keeps::<M>(c3, m, op, inv);
    } else if is_flow(op) {
        lemma_flow_keeps::<M>(c3, m, op, inv);
    } else if is_prefixed(op) {
        lemma_prefixed_keeps::<M>(c3, m, op, inv);
    }
}

// ---------------------------------------------------------------------------------------
// Decoding yields executable opcodes
// ---------------------------------------------------------------------------------------

/// Every opcode that `decode` yields, other than the prefix, has operands of the kinds its
/// operation accepts; so does every opcode that `decode_prefixed` yields.
pub proof fn lemma_decoded_operands_ok(byte: u8)
    ensures
        !(spec_decode(byte) is Prefix) ==> operands_ok(spec_decode(byte)),
        operands_ok(spec_decode_prefixed(byte)),
{
}

impl Cpu {
    /// Constructs a new `Cpu` instance.
    pub fn new() -> (r: Self)
        ensures
            r.regs == initial_registers(),
            !r.halted,
    {
        Self { regs: Registers::new(), halted: false }
    }

    /// Queries the registers of the CPU
    pub fn get_regs(&self) -> (r: &Registers)
        ensures
            *r == self.regs,
    {
        &self.regs
    }

    /// Mutably queries the registers of the CPU
    pub fn get_mut_regs(&mut self) -> (r: &mut Registers)
        ensures
            *r == old(self).regs,
            final(self).regs == *final(r),
            final(self).halted == old(self).halted,
    {
        &mut self.regs
    }

    fn get_flag(&self, flag: Flag) -> (r: bool)
        ensures
            r == self.regs.flags.has(flag),
    {
        self.regs.flags.is_flag_set(flag)
    }

    fn get_flags(&self) -> (r: Flags)
        ensures
            r == self.regs.flags,
    {
        self.regs.flags
    }

    fn set_flags(&mut self, flags: Flags)
        ensures
            *final(self) == with_flags(*old(self), flags),
    {
        self.regs.flags = flags;
    }

    fn get_reg(&self, reg: Register) -> (r: u8)
        ensures
            r == reg_value(self.regs, reg),
    {
        match reg {
            Register::A => self.regs.a_reg,
            Register::B => self.regs.b_reg,
            Register::C => self.regs.c_reg,
            Register::D => self.regs.d_reg,
            Register::E => self.regs.e_reg,
            Register::H => self.regs.h_reg,
            Register::L => self.regs.l_reg,
        }
    }

    fn set_reg(&mut self, reg: Register, value: u8)
        ensures
            *final(self) == with_regs(*old(self), with_reg(old(self).regs, reg, value)),
    {
        match reg {
            Register::A => self.regs.a_reg = value,
            Register::B => self.regs.b_reg = value,
            Register::C => self.regs.c_reg = value,
            Register::D => self.regs.d_reg = value,
            Register::E => self.regs.e_reg = value,
            Register::H => self.regs.h_reg = value,
            Register::L => self.regs.l_reg = value,
        }
    }

    fn set_hl(&mut self, value: u16)
        ensures
            *final(self) == with_regs(*old(self), with_hl(old(self).regs, value)),
    {
        self.regs.h_reg = (value / 256) as u8;
        self.regs.l_reg = (value % 256) as u8;
    }

    #[verifier::spinoff_prover]
    #[verifier::rlimit(50)]
    fn get_reg_pair(&mut self, reg: RegisterPairs) -> (r: u16)
        ensures
            r == pair_value(old(self).regs, reg),
            *final(self) == with_regs(*old(self), after_pair_read(old(self).regs, reg)),
    {
        let (hi, lo) = match reg {
            RegisterPairs::BC => (self.regs.b_reg, self.regs.c_reg),
            RegisterPairs::DE => (self.regs.d_reg, self.regs.e_reg),
            RegisterPairs::SP => {
                return self.regs.sp_reg;
            },
            RegisterPairs::AF => (self.regs.a_reg, self.regs.flags.0),
            _ => (self.regs.h_reg, self.regs.l_reg),
        };
        let value = (hi as u16) * 256 + (lo as u16);
        match reg {
            RegisterPairs::HLINC => {
                let next = value.wrapping_add(1);
                self.set_hl(next);
            },
            RegisterPairs::HLDEC => {
                let next = value.wrapping_sub(1);
                self.set_hl(next);
            },
            _ => {},
        }
        value
    }

    fn set_reg_pair(&mut self, reg: RegisterPairs, value: u16)
        ensures
            *final(self) == with_regs(*old(self), with_pair(old(self).regs, reg, value)),
    {
        let hi = (value / 256) as u8;
        let lo = (value % 256) as u8;
        match reg {
            RegisterPairs::BC => {
                self.regs.b_reg = hi;
                self.regs.c_reg = lo;
            },
            RegisterPairs::DE => {
                self.regs.d_reg = hi;
                self.regs.e_reg = lo;
            },
            RegisterPairs::SP => {
                self.regs.sp_reg = value;
            },
            RegisterPairs::AF => {
                self.regs.a_reg = hi;
                // The low nibble of the flags register is hardwired to 0
                self.regs.flags = Flags((lo / 16) * 16);
            },
            _ => {
                self.set_hl(value);
            },
        }
    }

    fn step_pc(&mut self) -> (r: u16)
        ensures
            r == old(self).regs.pc_reg,
            *final(self) == with_pc(*old(self), inc16(old(self).regs.pc_reg)),
    {
        let pc = self.regs.pc_reg;
        self.regs.pc_reg = self.regs.pc_reg.wrapping_add(1);
        pc
    }

    fn read_8_bit_immediate<T: Memory>(&mut self, memory: &T) -> (r: u8)
        requires
            T::wf_view(memory@),
        ensures
            (*final(self), r) == spec_imm8::<T>(*old(self), memory@),
    {
        let pc = self.step_pc();
        memory.read(pc)
    }

    fn read_16_bit_immediate<T: Memory>(&mut self, memory: &T) -> (r: u16)
        requires
            T::wf_view(memory@),
        ensures
            (*final(self), r) == spec_imm16::<T>(*old(self), memory@),
    {
        let lo = self.read_8_bit_immediate(memory);
        let hi = self.read_8_bit_immediate(memory);
        (hi as u16) * 256 + (lo as u16)
    }

    fn check_condition(&self, condition: Condition) -> (r: bool)
        ensures
            r == spec_condition(self.regs, condition),
    {
        match condition {
            Condition::NZ => !self.get_flag(Flag::Z),
            Condition::Z => self.get_flag(Flag::Z),
            Condition::NC => !self.get_flag(Flag::C),
            Condition::C => self.get_flag(Flag::C),
        }
    }

    fn stack_push<T: Memory>(&mut self, memory: &mut T, value: u16)
        requires
            T::wf_view(old(memory)@),
        ensures
            (*final(self), final(memory)@) == spec_push::<T>(*old(self), old(memory)@, value),
            T::wf_view(final(memory)@),
    {
        let sp = self.regs.sp_reg;
        let pos = sp.wrapping_sub(1);
        memory.write(pos, (value / 256) as u8);
        let pos = pos.wrapping_sub(1);
        memory.write(pos, (value % 256) as u8);
        self.regs.sp_reg = pos;
    }

    fn stack_pop<T: Memory>(&mut self, memory: &T) -> (r: u16)
        requires
            T::wf_view(memory@),
        ensures
            (*final(self), r) == spec_pop::<T>(*old(self), memory@),
    {
        let sp = self.regs.sp_reg;
        let pos = sp;
        let lo = memory.read(pos);
        let pos = pos.wrapping_add(1);
        let hi = memory.read(pos);
        let pos = pos.wrapping_add(1);
        self.regs.sp_reg = pos;
        (lo as u16) + (hi as u16) * 256
    }

    fn fetch_and_decode<T: Memory>(&mut self, memory: &T) -> (op: OpCode)
        requires
            T::wf_view(memory@),
        ensures
            (*final(self), op) == spec_fetch::<T>(*old(self), memory@),
            operands_ok(op),
    {
        let insn = self.read_8_bit_immediate(memory);
        proof {
            lemma_decoded_operands_ok(insn);
        }
        match decode(insn) {
            OpCode::Prefix => {
                let insn = self.read_8_bit_immediate(memory);
                proof {
                    lemma_decoded_operands_ok(insn);
                }
                decode_prefixed(insn)
            },
            opcode => opcode,
        }
    }

    /// Executes a single CPU instruction and returns from the function.
    pub fn step<T: Memory>(&mut self, memory: &mut T, interrupts: Interrupts) -> (r: ExitReason)
        requires
            T::wf_view(old(memory)@),
        ensures
            (*final(self), final(memory)@, r) == spec_step::<T>(*old(self), old(memory)@, interrupts),
            T::wf_view(final(memory)@),
    {
        if self.halted && !interrupts.has_any() {
            return ExitReason::Halt(Cycles::new(4));
        }
        self.halted = false;

        match interrupts.highest_priority() {
            Some(irq) if self.regs.irq_en => {
                self.regs.irq_en = false;
                let return_addr = self.regs.pc_reg;
                self.stack_push(memory, return_addr);
                self.regs.pc_reg = translate_irq_target(irq);
                ExitReason::InterruptTaken(Cycles::new(20), irq)
            },
            _ => {
                let instruction = self.fetch_and_decode(memory);
                self.execute(memory, instruction)
            },
        }
    }

    fn load_8bit_with_addressing_mode<T: Memory>(&mut self, memory: &T, mode: AddressingMode) -> (r: (usize, u8))
        requires
            T::wf_view(memory@),
            loads8(mode),
        ensures
            (*final(self), r.0 as int, r.1) == spec_load8::<T>(*old(self), memory@, mode),
    {
        match mode {
            AddressingMode::Register(r) => (0, self.get_reg(r)),
            AddressingMode::Immediate => (4, self.read_8_bit_immediate(memory)),
            AddressingMode::IndirectRegister(r) => {
                let addr = self.get_reg_pair(r);
                (4, memory.read(addr))
            },
            AddressingMode::IndirectZeroPageRegister(r) => {
                let addr = self.get_reg(r) as u16 + 0xFF00;
                (4, memory.read(addr))
            },
            AddressingMode::IndirectZeroPageImmediate => {
                let addr = self.read_8_bit_immediate(memory) as u16 + 0xFF00;
                (8, memory.read(addr))
            },
            _ => {
                let addr = self.read_16_bit_immediate(memory);
                (12, memory.read(addr))
            },
        }
    }

    fn store_8bit_with_addressing_mode<T: Memory>(
        &mut self,
        memory: &mut T,
        mode: AddressingMode,
        value: u8,
    ) -> (r: usize)
        requires
            T::wf_view(old(memory)@),
            stores8(mode),
        ensures
            (*final(self), final(memory)@, r as int) == spec_store8::<T>(
                *old(self),
                old(memory)@,
                mode,
                value,
            ),
            T::wf_view(final(memory)@),
    {
        match mode {
            AddressingMode::Register(r) => {
                self.set_reg(r, value);
                0
            },
            AddressingMode::IndirectRegister(r) => {
                let addr = self.get_reg_pair(r);
                memory.write(addr, value);
                4
            },
            AddressingMode::IndirectZeroPageRegister(r) => {
                let addr = self.get_reg(r) as u16 + 0xFF00;
                memory.write(addr, value);
                4
            },
            AddressingMode::IndirectZeroPageImmediate => {
                let addr = self.read_8_bit_immediate(memory) as u16 + 0xFF00;
                memory.write(addr, value);
                8
            },
            _ => {
                let addr = self.read_16_bit_immediate(memory);
                memory.write(addr, value);
                12
            },
        }
    }

    fn load_16bit_with_addressing_mode<T: Memory>(&mut self, memory: &T, mode: AddressingMode) -> (r: (usize, u16))
        requires
            T::wf_view(memory@),
            loads16(mode),
        ensures
            (*final(self), r.0 as int, r.1) == spec_load16::<T>(*old(self), memory@, mode),
    {
        match mode {
            AddressingMode::RegisterPair(r) => (0, self.get_reg_pair(r)),
            _ => (8, self.read_16_bit_immediate(memory)),
        }
    }

    fn store_16bit_with_addressing_mode<T: Memory>(
        &mut self,
        memory: &mut T,
        mode: AddressingMode,
        value: u16,
    ) -> (r: usize)
        requires
            T::wf_view(old(memory)@),
            stores16(mode),
        ensures
            (*final(self), final(memory)@, r as int) == spec_store16::<T>(
                *old(self),
                old(memory)@,
                mode,
                value,
            ),
            T::wf_view(final(memory)@),
    {
        match mode {
            AddressingMode::RegisterPair(r) => {
                self.set_reg_pair(r, value);
                0
            },
            _ => {
                let addr = self.read_16_bit_immediate(memory);
                memory.write(addr, (value % 256) as u8);
                memory.write(addr.wrapping_add(1), (value / 256) as u8);
                16
            },
        }
    }

    fn execute<T: Memory>(&mut self, memory: &mut T, opcode: OpCode) -> (r: ExitReason)
        requires
            T::wf_view(old(memory)@),
            operands_ok(opcode),
        ensures
            (*final(self), final(memory)@, r) == spec_execute::<T>(*old(self), old(memory)@, opcode),
            T::wf_view(final(memory)@),
    {
        let cycles = match opcode {
            OpCode::Halt => {
                self.halted = true;
                return ExitReason::Halt(Cycles::new(4));
            },
            OpCode::Stop => {
                return ExitReason::Stop(Cycles::new(4));
            },
            OpCode::Illegal | OpCode::Prefix => {
                return ExitReason::IllegalOpcode;
            },
            OpCode::Ld8(_, _) | OpCode::Ld16(_, _) => self.execute_load(memory, opcode),
            OpCode::Add8(_, _) | OpCode::Sub8(_, _) | OpCode::And8(_, _) | OpCode::Or8(_, _)
            | OpCode::Adc8(_, _) | OpCode::Sbc8(_, _) | OpCode::Xor8(_, _) | OpCode::Cp8(
                _,
                _,
            ) => self.execute_alu8(memory, opcode),
            OpCode::Add16(_, _) | OpCode::AddSpImm | OpCode::Ld16HlSpImm | OpCode::Inc8(_)
            | OpCode::Dec8(_) | OpCode::Inc16(_) | OpCode::Dec16(_) => self.execute_arith(
                memory,
                opcode,
            ),
            OpCode::JrImm(_) | OpCode::Ret(_) | OpCode::Reti | OpCode::JpImm(_) | OpCode::JpHl
            | OpCode::CallImm(_) | OpCode::Reset(_) | OpCode::Pop(_) | OpCode::Push(_) => self.execute_flow(memory, opcode),
            OpCode::Rlc(_) | OpCode::Rrc(_) | OpCode::Rl(_) | OpCode::Rr(_) | OpCode::Sla(_)
            | OpCode::Sra(_) | OpCode::Swap(_) | OpCode::Srl(_) | OpCode::Bit(_, _) | OpCode::Res(
                _,
                _,
            ) | OpCode::SetBit(_, _) => self.execute_prefixed(memory, opcode),
            _ => self.execute_misc(opcode),
        };
        ExitReason::Step(Cycles::new(cycles))
    }

    fn execute_load<T: Memory>(&mut self, memory: &mut T, opcode: OpCode) -> (r: usize)
        requires
            T::wf_view(old(memory)@),
            operands_ok(opcode),
            opcode is Ld8 || opcode is Ld16,
        ensures
            (*final(self), final(memory)@, r as int) == spec_exec_ld::<T>(*old(self), old(memory)@, opcode),
            T::wf_view(final(memory)@),
    {
        match opcode {
            OpCode::Ld8(dest, src) => {
                let (cycles, value) = self.load_8bit_with_addressing_mode(memory, src);
                4 + cycles + self.store_8bit_with_addressing_mode(memory, dest, value)
            },
            OpCode::Ld16(dest, src) => {
                let (cycles, value) = self.load_16bit_with_addressing_mode(memory, src);
                let cycles = 4 + cycles + self.store_16bit_with_addressing_mode(memory, dest, value);
                if cycles < 8 {
                    8
                } else {
                    cycles
                }
            },
            _ => 0,
        }
    }

    fn execute_alu8<T: Memory>(&mut self, memory: &mut T, opcode: OpCode) -> (r: usize)
        requires
            T::wf_view(old(memory)@),
            operands_ok(opcode),
            is_alu8(opcode),
        ensures
            (*final(self), final(memory)@, r as int) == spec_exec_alu8::<T>(*old(self), old(memory)@, opcode),
            T::wf_view(final(memory)@),
    {
        let (dest, src) = match opcode {
            OpCode::Add8(d, s) | OpCode::Sub8(d, s) | OpCode::And8(d, s) | OpCode::Or8(d, s)
            | OpCode::Adc8(d, s) | OpCode::Sbc8(d, s) | OpCode::Xor8(d, s) | OpCode::Cp8(d, s) => (d, s),
            _ => (AddressingMode::Immediate, AddressingMode::Immediate),
        };
        self.execute_alu8_on(memory, opcode, dest, src)
    }

    fn alu8_apply(opcode: OpCode, dest_val: u8, src_val: u8, carry: bool) -> (r: (u8, Flags))
        ensures
            r == alu8_result(opcode, dest_val, src_val, carry),
    {
        match opcode {
            OpCode::Add8(_, _) => crate::alu::add(src_val, dest_val, false),
            OpCode::Adc8(_, _) => crate::alu::add(src_val, dest_val, carry),
            OpCode::Sub8(_, _) => crate::alu::sub(dest_val, src_val, false),
            OpCode::Sbc8(_, _) => crate::alu::sub(dest_val, src_val, carry),
            OpCode::And8(_, _) => and(src_val, dest_val),
            OpCode::Or8(_, _) => or(src_val, dest_val),
            OpCode::Xor8(_, _) => xor(src_val, dest_val),
            _ => crate::alu::sub(dest_val, src_val, false),
        }
    }

    fn execute_alu8_on<T: Memory>(
        &mut self,
        memory: &mut T,
        opcode: OpCode,
        dest: AddressingMode,
        src: AddressingMode,
    ) -> (r: usize)
        requires
            T::wf_view(old(memory)@),
            loads8(src),
            opcode is Cp8 ==> loads8(dest),
            !(opcode is Cp8) ==> stores8(dest),
        ensures
            (*final(self), final(memory)@, r as int) == spec_exec_alu8_on::<T>(*old(self), old(memory)@, opcode, dest, src),
            T::wf_view(final(memory)@),
    {
        let (src_cycles, src_val) = self.load_8bit_with_addressing_mode(memory, src);
        let (dest_cycles, dest_val) = self.load_8bit_with_addressing_mode(memory, dest);
        let carry = self.get_flag(Flag::C);
        let (result, flags) = Self::alu8_apply(opcode, dest_val, src_val, carry);
        self.set_flags(flags);
        if let OpCode::Cp8(_, _) = opcode {
            4 + src_cycles + dest_cycles
        } else {
            4 + src_cycles + dest_cycles + self.store_8bit_with_addressing_mode(memory, dest, result)
        }
    }

    fn execute_arith<T: Memory>(&mut self, memory: &mut T, opcode: OpCode) -> (r: usize)
        requires
            T::wf_view(old(memory)@),
            operands_ok(opcode),
            is_arith(opcode),
        ensures
            (*final(self), final(memory)@, r as int) == spec_exec_arith::<T>(*old(self), old(memory)@, opcode),
            T::wf_view(final(memory)@),
    {
        match opcode {
            OpCode::Add16(dest, src) => self.execute_add16(memory, dest, src),
            OpCode::AddSpImm => self.execute_sp_offset(memory, true),
            OpCode::Ld16HlSpImm => self.execute_sp_offset(memory, false),
            OpCode::Inc8(reg) => self.execute_inc_dec8(memory, reg, true),
            OpCode::Dec8(reg) => self.execute_inc_dec8(memory, reg, false),
            OpCode::Inc16(reg) => self.execute_inc_dec16(memory, reg, true),
            OpCode::Dec16(reg) => self.execute_inc_dec16(memory, reg, false),
            _ => 0,
        }
    }

    fn execute_add16<T: Memory>(&mut self, memory: &mut T, dest: AddressingMode, src: AddressingMode) -> (r: usize)
        requires
            T::wf_view(old(memory)@),
            stores16(dest),
            loads16(dest),
            loads16(src),
        ensures
            (*final(self), final(memory)@, r as int) == spec_exec_add16::<T>(*old(self), old(memory)@, dest, src),
            T::wf_view(final(memory)@),
    {
        let (src_cycles, src_val) = self.load_16bit_with_addressing_mode(memory, src);
        let (dest_cycles, dest_val) = self.load_16bit_with_addressing_mode(memory, dest);
        let (result, flags) = add16(src_val, dest_val, self.get_flags());
        self.set_flags(flags);
        8 + src_cycles + dest_cycles + self.store_16bit_with_addressing_mode(memory, dest, result)
    }

    fn execute_sp_offset<T: Memory>(&mut self, memory: &mut T, to_sp: bool) -> (r: usize)
        requires
            T::wf_view(old(memory)@),
        ensures
            (*final(self), final(memory)@, r as int) == spec_exec_sp_offset::<T>(*old(self), old(memory)@, to_sp),
            T::wf_view(final(memory)@),
    {
        // Signed 16-bit addition of an 8-bit immediate to SP
        let imm = sign_extend(self.read_8_bit_immediate(memory));
        let sp = self.regs.sp_reg;
        let result = sp.wrapping_add(imm);
        let cycles = if to_sp {
            self.regs.sp_reg = result;
            16
        } else {
            self.set_hl(result);
            12
        };
        proof {
            lemma_shift_constants();
            lemma_add_signed_carries(imm, sp, result);
        }
        let flags = Flags::new()
            .with(Flag::Z, false)
            .with(Flag::N, false)
            .with(Flag::H, carry_bit16(imm, sp, result, 4))
            .with(Flag::C, carry_bit16(imm, sp, result, 8));
        proof {
            lemma_are_flags_from(flags, false, false, imm % 16 + sp % 16 >= 16, imm % 256 + sp % 256 >= 256, 0);
        }
        self.set_flags(flags);
        cycles
    }

    #[verifier::spinoff_prover]
    #[verifier::rlimit(50)]
    fn execute_inc_dec8<T: Memory>(&mut self, memory: &mut T, reg: AddressingMode, increment: bool) -> (r: usize)
        requires
            T::wf_view(old(memory)@),
            stores8(reg),
        ensures
            (*final(self), final(memory)@, r as int) == spec_exec_inc_dec8::<T>(*old(self), old(memory)@, reg, increment),
            T::wf_view(final(memory)@),
    {
        let (load_cycles, prev) = self.load_8bit_with_addressing_mode(memory, reg);
        let inc = prev.wrapping_add(1);
        let dec = prev.wrapping_add(0xff);
        proof {
            lemma_shift_constants();
            lemma_inc_dec8(prev, inc, dec);
        }
        let next = if increment { inc } else { dec };
        let flags = if increment {
            self.get_flags()
                .with(Flag::Z, next == 0)
                .with(Flag::N, false)
                .with(Flag::H, carry_bit8(prev, 1, next, 4))
        } else {
            self.get_flags()
                .with(Flag::Z, next == 0u8)
                .with(Flag::N, true)
                .with(Flag::H, !carry_bit8(0xff, prev, next, 4))
        };
        proof {
            lemma_are_flags_from(
                flags,
                next == 0,
                !increment,
                if increment { prev % 16 == 15 } else { prev % 16 == 0 },
                self.regs.flags.has(Flag::C),
                self.regs.flags.0 & 0x0F,
            );
        }
        self.set_flags(flags);
        4 + load_cycles + self.store_8bit_with_addressing_mode(memory, reg, next)
    }

    #[verifier::spinoff_prover]
    #[verifier::rlimit(50)]
    fn execute_inc_dec16<T: Memory>(&mut self, memory: &mut T, reg: AddressingMode, increment: bool) -> (r: usize)
        requires
            T::wf_view(old(memory)@),
            stores16(reg),
            loads16(reg),
        ensures
            (*final(self), final(memory)@, r as int) == spec_exec_inc_dec16::<T>(*old(self), old(memory)@, reg, increment),
            T::wf_view(final(memory)@),
    {
        let (load_cycles, prev) = self.load_16bit_with_addressing_mode(memory, reg);
        let next = if increment {
            prev.wrapping_add(1)
        } else {
            prev.wrapping_sub(1)
        };
        8 + load_cycles + self.store_16bit_with_addressing_mode(memory, reg, next)
    }

    fn execute_misc(&mut self, opcode: OpCode) -> (r: usize)
        requires
            !(opcode is Ld8 || opcode is Ld16 || is_alu8(opcode) || is_arith(opcode) || is_flow(opcode) || is_prefixed(opcode)),
            !(opcode is Halt || opcode is Stop || opcode is Illegal || opcode is Prefix),
        ensures
            (*final(self), r as int) == spec_exec_misc(*old(self), opcode),
    {
        match opcode {
            OpCode::Daa => {
                let a = self.get_reg(Register::A);
                let (result, flags) = daa(a, self.get_flags());
                self.set_reg(Register::A, result);
                self.set_flags(flags);
            },
            OpCode::Cpl => {
                let a = self.get_reg(Register::A);
                let complement = !a;
                self.set_reg(Register::A, complement);
                let flags = self.get_flags().with(Flag::N, true).with(Flag::H, true);
                self.set_flags(flags);
            },
            OpCode::Scf => {
                let flags = self.get_flags().with(Flag::C, true).with(Flag::N, false).with(Flag::H, false);
                self.set_flags(flags);
            },
            OpCode::Ccf => {
                let flags = self.get_flags();
                let flags = flags.with(Flag::C, !flags.is_flag_set(Flag::C)).with(Flag::N, false).with(Flag::H, false);
                self.set_flags(flags);
            },
            OpCode::Di => {
                self.regs.irq_en = false;
            },
            OpCode::Ei => {
                self.regs.irq_en = true;
            },
            OpCode::Rlca => {
                let (shifted, flags) = rlc(self.get_reg(Register::A), false);
                self.set_reg(Register::A, shifted);
                self.set_flags(flags);
            },
            OpCode::Rrca => {
                let (shifted, flags) = rrc(self.get_reg(Register::A), false);
                self.set_reg(Register::A, shifted);
                self.set_flags(flags);
            },
            OpCode::Rla => {
                let (shifted, flags) = rl(self.get_reg(Register::A), self.get_flag(Flag::C), false);
                self.set_reg(Register::A, shifted);
                self.set_flags(flags);
            },
            OpCode::Rra => {
                let (shifted, flags) = rr(self.get_reg(Register::A), self.get_flag(Flag::C), false);
                self.set_reg(Register::A, shifted);
                self.set_flags(flags);
            },
            _ => {},
        }
        4
    }

    fn execute_flow<T: Memory>(&mut self, memory: &mut T, opcode: OpCode) -> (r: usize)
        requires
            T::wf_view(old(memory)@),
            is_flow(opcode),
        ensures
            (*final(self), final(memory)@, r as int) == spec_exec_flow::<T>(*old(self), old(memory)@, opcode),
            T::wf_view(final(memory)@),
    {
        match opcode {
            OpCode::JrImm(condition) => self.execute_jr(memory, condition),
            OpCode::Ret(condition) => self.execute_ret(memory, condition),
            OpCode::Reti => {
                let value = self.stack_pop(memory);
                self.regs.pc_reg = value;
                self.regs.irq_en = true;
                16
            },
            OpCode::JpImm(condition) => self.execute_jp(memory, condition),
            OpCode::JpHl => {
                let target = self.get_reg_pair(RegisterPairs::HL);
                self.regs.pc_reg = target;
                4
            },
            OpCode::CallImm(condition) => self.execute_call(memory, condition),
            OpCode::Reset(target) => {
                let target = translate_reset_target(target);
                let return_addr = self.regs.pc_reg;
                self.stack_push(memory, return_addr);
                self.regs.pc_reg = target;
                16
            },
            OpCode::Pop(reg) => {
                let value = self.stack_pop(memory);
                self.set_reg_pair(reg.into_generalized(), value);
                12
            },
            OpCode::Push(reg) => {
                let value = self.get_reg_pair(reg.into_generalized());
                self.stack_push(memory, value);
                16
            },
            _ => 0,
        }
    }

    fn is_taken(&self, condition: Option<Condition>) -> (r: bool)
        ensures
            r == taken(self.regs, condition),
    {
        match condition {
            None => true,
            Some(cc) => self.check_condition(cc),
        }
    }

    fn execute_jr<T: Memory>(&mut self, memory: &T, condition: Option<Condition>) -> (r: usize)
        requires
            T::wf_view(memory@),
        ensures
            (*final(self), memory@, r as int) == spec_exec_jr::<T>(*old(self), memory@, condition),
    {
        let target_offset = sign_extend(self.read_8_bit_immediate(memory));
        if self.is_taken(condition) {
            let pc = self.regs.pc_reg;
            self.regs.pc_reg = pc.wrapping_add(target_offset);
            12
        } else {
            8
        }
    }

    fn execute_ret<T: Memory>(&mut self, memory: &T, condition: Option<Condition>) -> (r: usize)
        requires
            T::wf_view(memory@),
        ensures
            (*final(self), memory@, r as int) == spec_exec_ret::<T>(*old(self), memory@, condition),
    {
        if self.is_taken(condition) {
            let value = self.stack_pop(memory);
            self.regs.pc_reg = value;
            if condition.is_none() {
                16
            } else {
                20
            }
        } else {
            8
        }
    }

    fn execute_jp<T: Memory>(&mut self, memory: &T, condition: Option<Condition>) -> (r: usize)
        requires
            T::wf_view(memory@),
        ensures
            (*final(self), memory@, r as int) == spec_exec_jp::<T>(*old(self), memory@, condition),
    {
        let target = self.read_16_bit_immediate(memory);
        if self.is_taken(condition) {
            self.regs.pc_reg = target;
            16
        } else {
            12
        }
    }

    fn execute_call<T: Memory>(&mut self, memory: &mut T, condition: Option<Condition>) -> (r: usize)
        requires
            T::wf_view(old(memory)@),
        ensures
            (*final(self), final(memory)@, r as int) == spec_exec_call::<T>(*old(self), old(memory)@, condition),
            T::wf_view(final(memory)@),
    {
        let target = self.read_16_bit_immediate(memory);
        if self.is_taken(condition) {
            let return_addr = self.regs.pc_reg;
            self.stack_push(memory, return_addr);
            self.regs.pc_reg = target;
            24
        } else {
            12
        }
    }

    fn execute_prefixed<T: Memory>(&mut self, memory: &mut T, opcode: OpCode) -> (r: usize)
        requires
            T::wf_view(old(memory)@),
            operands_ok(opcode),
            is_prefixed(opcode),
        ensures
            (*final(self), final(memory)@, r as int) == spec_exec_prefixed::<T>(*old(self), old(memory)@, opcode),
            T::wf_view(final(memory)@),
    {
        let mode = match opcode {
            OpCode::Rlc(m) | OpCode::Rrc(m) | OpCode::Rl(m) | OpCode::Rr(m) | OpCode::Sla(m)
            | OpCode::Sra(m) | OpCode::Swap(m) | OpCode::Srl(m) | OpCode::Bit(_, m)
            | OpCode::Res(_, m) | OpCode::SetBit(_, m) => m,
            _ => AddressingMode::Immediate,
        };
        let (load_cycles, prev) = self.load_8bit_with_addressing_mode(memory, mode);
        match opcode {
            OpCode::Bit(bit_idx, _) => {
                let flags = bit(bit_idx, prev, self.get_flags());
                self.set_flags(flags);
                8 + load_cycles
            },
            OpCode::Res(bit_idx, _) => {
                let value = res(bit_idx, prev);
                8 + load_cycles + self.store_8bit_with_addressing_mode(memory, mode, value)
            },
            OpCode::SetBit(bit_idx, _) => {
                let value = crate::alu::set(bit_idx, prev);
                8 + load_cycles + self.store_8bit_with_addressing_mode(memory, mode, value)
            },
            _ => {
                let carry = self.get_flag(Flag::C);
                let (shifted, flags) = match opcode {
                    OpCode::Rlc(_) => rlc(prev, true),
                    OpCode::Rrc(_) => rrc(prev, true),
                    OpCode::Rl(_) => rl(prev, carry, true),
                    OpCode::Rr(_) => rr(prev, carry, true),
                    OpCode::Sla(_) => sla(prev),
                    OpCode::Sra(_) => sra(prev),
                    OpCode::Swap(_) => swap(prev),
                    _ => srl(prev),
                };
                self.set_flags(flags);
                8 + load_cycles + self.store_8bit_with_addressing_mode(memory, mode, shifted)
            },
        }
    }
}

} // verus!
