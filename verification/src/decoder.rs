//! Decoding of SM83 instruction bytes into opcodes.
//!
//! An instruction byte is read as three fields: `x` (bits 7-6), `y` (bits 5-3) and
//! `z` (bits 2-0). `y` is further split into `p` (bits 5-4) and `q` (bit 3). The operand
//! encodings are:
//! - 8-bit operand (3 bits): B, C, D, E, H, L, [HL], A
//! - 16-bit register pair (2 bits): BC, DE, HL, SP
//! - 16-bit stack register pair (2 bits): BC, DE, HL, AF
//! - 16-bit memory register pair (2 bits): [BC], [DE], [HL+], [HL-]
//! - condition (2 bits): NZ, Z, NC, C
use vstd::prelude::*;

verus! {

/// An 8-bit CPU register.
#[derive(Debug, Clone, Copy, PartialEq, Eq, Structural)]
pub enum Register {
    A,
    B,
    C,
    D,
    E,
    H,
    L,
}

/// A 16-bit register pair as encoded in arithmetic and load instructions.
#[derive(Debug, Clone, Copy, PartialEq, Eq, Structural)]
pub enum RegisterPair {
    BC,
    DE,
    HL,
    SP,
}

/// A 16-bit register pair as encoded in push and pop instructions.
#[derive(Debug, Clone, Copy, PartialEq, Eq, Structural)]
pub enum RegisterPairStack {
    BC,
    DE,
    HL,
    AF,
}

/// A 16-bit register pair as encoded in indirect 8-bit loads.
#[derive(Debug, Clone, Copy, PartialEq, Eq, Structural)]
pub enum RegisterPairMem {
    BC,
    DE,
    HLINC,
    HLDEC,
}

/// Any 16-bit register pair, including the post-incremented and post-decremented HL.
#[derive(Debug, Clone, Copy, PartialEq, Eq, Structural)]
pub enum RegisterPairs {
    BC,
    DE,
    HL,
    SP,
    HLINC,
    HLDEC,
    AF,
}

/// A jump condition on the CPU flags.
#[derive(Debug, Clone, Copy, PartialEq, Eq, Structural)]
pub enum Condition {
    NZ,
    Z,
    NC,
    C,
}

/// The target of a reset (`rst`) instruction.
#[derive(Debug, Clone, Copy, PartialEq, Eq, Structural)]
pub enum ResetTarget {
    Addr0x00,
    Addr0x08,
    Addr0x10,
    Addr0x18,
    Addr0x20,
    Addr0x28,
    Addr0x30,
    Addr0x38,
}

/// A bit index within a byte.
#[derive(Debug, Clone, Copy, PartialEq, Eq, Structural)]
pub enum Bit {
    Bit0,
    Bit1,
    Bit2,
    Bit3,
    Bit4,
    Bit5,
    Bit6,
    Bit7,
}

/// How an instruction operand is accessed.
#[derive(Debug, Clone, Copy, PartialEq, Eq, Structural)]
pub enum AddressingMode {
    IndirectRegister(RegisterPairs),
    IndirectZeroPageRegister(Register),
    IndirectImmediate,
    IndirectZeroPageImmediate,
    Register(Register),
    RegisterPair(RegisterPairs),
    Immediate,
    Immediate16,
}

/// Opcodes of the CPU.
#[derive(Debug, Clone, Copy, PartialEq, Eq, Structural)]
pub enum OpCode {
    Ld8(AddressingMode, AddressingMode),
    Ld16(AddressingMode, AddressingMode),
    Add8(AddressingMode, AddressingMode),
    Sub8(AddressingMode, AddressingMode),
    And8(AddressingMode, AddressingMode),
    Or8(AddressingMode, AddressingMode),
    Adc8(AddressingMode, AddressingMode),
    Sbc8(AddressingMode, AddressingMode),
    Xor8(AddressingMode, AddressingMode),
    Cp8(AddressingMode, AddressingMode),
    Add16(AddressingMode, AddressingMode),
    Inc8(AddressingMode),
    Dec8(AddressingMode),
    Inc16(AddressingMode),
    Dec16(AddressingMode),
    JrImm(Option<Condition>),
    Ret(Option<Condition>),
    Reti,
    JpImm(Option<Condition>),
    JpHl,
    CallImm(Option<Condition>),
    Reset(ResetTarget),
    Pop(RegisterPairStack),
    Push(RegisterPairStack),
    AddSpImm,
    Ld16HlSpImm,
    Di,
    Ei,
    Halt,
    Prefix,
    Nop,
    Rlca,
    Rrca,
    Rla,
    Rra,
    Daa,
    Cpl,
    Scf,
    Ccf,
    Stop,
    Rlc(AddressingMode),
    Rrc(AddressingMode),
    Rl(AddressingMode),
    Rr(AddressingMode),
    Sla(AddressingMode),
    Sra(AddressingMode),
    Swap(AddressingMode),
    Srl(AddressingMode),
    Bit(Bit, AddressingMode),
    Res(Bit, AddressingMode),
    SetBit(Bit, AddressingMode),
    Illegal,
}

impl RegisterPair {
    /// Converts the pair into the general register pair type.
    pub fn into_generalized(self) -> (r: RegisterPairs)
        ensures
            r == self.spec_generalized(),
    {
        match self {
            RegisterPair::BC => RegisterPairs::BC,
            RegisterPair::DE => RegisterPairs::DE,
            RegisterPair::HL => RegisterPairs::HL,
            RegisterPair::SP => RegisterPairs::SP,
        }
    }

    pub open spec fn spec_generalized(self) -> RegisterPairs {
        match self {
            RegisterPair::BC => RegisterPairs::BC,
            RegisterPair::DE => RegisterPairs::DE,
            RegisterPair::HL => RegisterPairs::HL,
            RegisterPair::SP => RegisterPairs::SP,
        }
    }
}

impl RegisterPairMem {
    /// Converts the pair into the general register pair type.
    pub fn into_generalized(self) -> (r: RegisterPairs)
        ensures
            r == self.spec_generalized(),
    {
        match self {
            RegisterPairMem::BC => RegisterPairs::BC,
            RegisterPairMem::DE => RegisterPairs::DE,
            RegisterPairMem::HLINC => RegisterPairs::HLINC,
            RegisterPairMem::HLDEC => RegisterPairs::HLDEC,
        }
    }

    pub open spec fn spec_generalized(self) -> RegisterPairs {
        match self {
            RegisterPairMem::BC => RegisterPairs::BC,
            RegisterPairMem::DE => RegisterPairs::DE,
            RegisterPairMem::HLINC => RegisterPairs::HLINC,
            RegisterPairMem::HLDEC => RegisterPairs::HLDEC,
        }
    }
}

impl RegisterPairStack {
    /// Converts the pair into the general register pair type.
    pub fn into_generalized(self) -> (r: RegisterPairs)
        ensures
            r == self.spec_generalized(),
    {
        match self {
            RegisterPairStack::BC => RegisterPairs::BC,
            RegisterPairStack::DE => RegisterPairs::DE,
            RegisterPairStack::HL => RegisterPairs::HL,
            RegisterPairStack::AF => RegisterPairs::AF,
        }
    }

    pub open spec fn spec_generalized(self) -> RegisterPairs {
        match self {
            RegisterPairStack::BC => RegisterPairs::BC,
            RegisterPairStack::DE => RegisterPairs::DE,
            RegisterPairStack::HL => RegisterPairs::HL,
            RegisterPairStack::AF => RegisterPairs::AF,
        }
    }
}

/// The 8-bit register encoded by `v`; 6 encodes no register (it is `[HL]`).
pub open spec fn reg8_of(v: int) -> Register {
    if v == 0 {
        Register::B
    } else if v == 1 {
        Register::C
    } else if v == 2 {
        Register::D
    } else if v == 3 {
        Register::E
    } else if v == 4 {
        Register::H
    } else if v == 5 {
        Register::L
    } else {
        Register::A
    }
}

/// The 8-bit operand encoded by the 3-bit field `v`: a register, or `[HL]` for 6.
pub open spec fn operand8_of(v: int) -> AddressingMode {
    if v == 6 {
        AddressingMode::IndirectRegister(RegisterPairs::HL)
    } else {
        AddressingMode::Register(reg8_of(v))
    }
}

/// The register pair encoded by the 2-bit field `p` in arithmetic and 16-bit loads.
pub open spec fn pair_of(p: int) -> RegisterPairs {
    if p == 0 {
        RegisterPairs::BC
    } else if p == 1 {
        RegisterPairs::DE
    } else if p == 2 {
        RegisterPairs::HL
    } else {
        RegisterPairs::SP
    }
}

/// The register pair encoded by the 2-bit field `p` in indirect 8-bit loads.
pub open spec fn mem_pair_of(p: int) -> RegisterPairs {
    if p == 0 {
        RegisterPairs::BC
    } else if p == 1 {
        RegisterPairs::DE
    } else if p == 2 {
        RegisterPairs::HLINC
    } else {
        RegisterPairs::HLDEC
    }
}

/// The register pair encoded by the 2-bit field `p` in push and pop.
pub open spec fn stack_pair_of(p: int) -> RegisterPairStack {
    if p == 0 {
        RegisterPairStack::BC
    } else if p == 1 {
        RegisterPairStack::DE
    } else if p == 2 {
        RegisterPairStack::HL
    } else {
        RegisterPairStack::AF
    }
}

/// The condition encoded by the 2-bit field `c`.
pub open spec fn condition_of(c: int) -> Condition {
    if c == 0 {
        Condition::NZ
    } else if c == 1 {
        Condition::Z
    } else if c == 2 {
        Condition::NC
    } else {
        Condition::C
    }
}

/// The reset target encoded by the 3-bit field `t`.
pub open spec fn reset_target_of(t: int) -> ResetTarget {
    if t == 0 {
        ResetTarget::Addr0x00
    } else if t == 1 {
        ResetTarget::Addr0x08
    } else if t == 2 {
        ResetTarget::Addr0x10
    } else if t == 3 {
        ResetTarget::Addr0x18
    } else if t == 4 {
        ResetTarget::Addr0x20
    } else if t == 5 {
        ResetTarget::Addr0x28
    } else if t == 6 {
        ResetTarget::Addr0x30
    } else {
        ResetTarget::Addr0x38
    }
}

/// The bit index encoded by the 3-bit field `b`.
pub open spec fn bit_of(b: int) -> Bit {
    if b == 0 {
        Bit::Bit0
    } else if b == 1 {
        Bit::Bit1
    } else if b == 2 {
        Bit::Bit2
    } else if b == 3 {
        Bit::Bit3
    } else if b == 4 {
        Bit::Bit4
    } else if b == 5 {
        Bit::Bit5
    } else if b == 6 {
        Bit::Bit6
    } else {
        Bit::Bit7
    }
}

/// The 8-bit arithmetic or logic operation `y` with operands `A` and `src`, in the order
/// add, adc, sub, sbc, and, xor, or, cp.
pub open spec fn alu_op_of(y: int, src: AddressingMode) -> OpCode {
    let a = AddressingMode::Register(Register::A);
    if y == 0 {
        OpCode::Add8(a, src)
    } else if y == 1 {
        OpCode::Adc8(a, src)
    } else if y == 2 {
        OpCode::Sub8(a, src)
    } else if y == 3 {
        OpCode::Sbc8(a, src)
    } else if y == 4 {
        OpCode::And8(a, src)
    } else if y == 5 {
        OpCode::Xor8(a, src)
    } else if y == 6 {
        OpCode::Or8(a, src)
    } else {
        OpCode::Cp8(a, src)
    }
}

/// The opcode of an unprefixed instruction byte with fields `y` and `z` and `x == 0`.
pub open spec fn decode_block0(y: int, z: int) -> OpCode {
    let p = y / 2;
    let q = y % 2;
    if z == 0 {
        if y == 0 {
            OpCode::Nop
        } else if y == 1 {
            OpCode::Ld16(AddressingMode::IndirectImmediate, AddressingMode::RegisterPair(RegisterPairs::SP))
        } else if y == 2 {
            OpCode::Stop
        } else if y == 3 {
            OpCode::JrImm(None)
        } else {
            OpCode::JrImm(Some(condition_of(y - 4)))
        }
    } else if z == 1 {
        if q == 0 {
            OpCode::Ld16(AddressingMode::RegisterPair(pair_of(p)), AddressingMode::Immediate16)
        } else {
            OpCode::Add16(AddressingMode::RegisterPair(RegisterPairs::HL), AddressingMode::RegisterPair(pair_of(p)))
        }
    } else if z == 2 {
        if q == 0 {
            OpCode::Ld8(AddressingMode::IndirectRegister(mem_pair_of(p)), AddressingMode::Register(Register::A))
        } else {
            OpCode::Ld8(AddressingMode::Register(Register::A), AddressingMode::IndirectRegister(mem_pair_of(p)))
        }
    } else if z == 3 {
        if q == 0 {
            OpCode::Inc16(AddressingMode::RegisterPair(pair_of(p)))
        } else {
            OpCode::Dec16(AddressingMode::RegisterPair(pair_of(p)))
        }
    } else if z == 4 {
        OpCode::Inc8(operand8_of(y))
    } else if z == 5 {
        OpCode::Dec8(operand8_of(y))
    } else if z == 6 {
        OpCode::Ld8(operand8_of(y), AddressingMode::Immediate)
    } else if y == 0 {
        OpCode::Rlca
    } else if y == 1 {
        OpCode::Rrca
    } else if y == 2 {
        OpCode::Rla
    } else if y == 3 {
        OpCode::Rra
    } else if y == 4 {
        OpCode::Daa
    } else if y == 5 {
        OpCode::Cpl
    } else if y == 6 {
        OpCode::Scf
    } else {
        OpCode::Ccf
    }
}

/// The opcode of an unprefixed instruction byte with fields `y` and `z` and `x == 3`.
pub open spec fn decode_block3(y: int, z: int) -> OpCode {
    let p = y / 2;
    let q = y % 2;
    let a = AddressingMode::Register(Register::A);
    if z == 0 {
        if y < 4 {
            OpCode::Ret(Some(condition_of(y)))
        } else if y == 4 {
            OpCode::Ld8(AddressingMode::IndirectZeroPageImmediate, a)
        } else if y == 5 {
            OpCode::AddSpImm
        } else if y == 6 {
            OpCode::Ld8(a, AddressingMode::IndirectZeroPageImmediate)
        } else {
            OpCode::Ld16HlSpImm
        }
    } else if z == 1 {
        if q == 0 {
            OpCode::Pop(stack_pair_of(p))
        } else if p == 0 {
            OpCode::Ret(None)
        } else if p == 1 {
            OpCode::Reti
        } else if p == 2 {
            OpCode::JpHl
        } else {
            OpCode::Ld16(AddressingMode::RegisterPair(RegisterPairs::SP), AddressingMode::RegisterPair(RegisterPairs::HL))
        }
    } else if z == 2 {
        if y < 4 {
            OpCode::JpImm(Some(condition_of(y)))
        } else if y == 4 {
            OpCode::Ld8(AddressingMode::IndirectZeroPageRegister(Register::C), a)
        } else if y == 5 {
            OpCode::Ld8(AddressingMode::IndirectImmediate, a)
        } else if y == 6 {
            OpCode::Ld8(a, AddressingMode::IndirectZeroPageRegister(Register::C))
        } else {
            OpCode::Ld8(a, AddressingMode::IndirectImmediate)
        }
    } else if z == 3 {
        if y == 0 {
            OpCode::JpImm(None)
        } else if y == 1 {
            OpCode::Prefix
        } else if y == 6 {
            OpCode::Di
        } else if y == 7 {
            OpCode::Ei
        } else {
            OpCode::Illegal
        }
    } else if z == 4 {
        if y < 4 {
            OpCode::CallImm(Some(condition_of(y)))
        } else {
            OpCode::Illegal
        }
    } else if z == 5 {
        if q == 0 {
            OpCode::Push(stack_pair_of(p))
        } else if p == 0 {
            OpCode::CallImm(None)
        } else {
            OpCode::Illegal
        }
    } else if z == 6 {
        alu_op_of(y, AddressingMode::Immediate)
    } else {
        OpCode::Reset(reset_target_of(y))
    }
}

/// The opcode of an unprefixed instruction byte.
pub open spec fn spec_decode(byte: u8) -> OpCode {
    let x = byte / 64;
    let y = (byte / 8) % 8;
    let z = byte % 8;
    if x == 0 {
        decode_block0(y as int, z as int)
    } else if x == 1 {
        if y == 6 && z == 6 {
            OpCode::Halt
        } else {
            OpCode::Ld8(operand8_of(y as int), operand8_of(z as int))
        }
    } else if x == 2 {
        alu_op_of(y as int, operand8_of(z as int))
    } else {
        decode_block3(y as int, z as int)
    }
}

/// The opcode of the byte that follows the 0xCB prefix byte.
pub open spec fn spec_decode_prefixed(byte: u8) -> OpCode {
    let x = byte / 64;
    let y = (byte / 8) % 8;
    let z = byte % 8;
    let operand = operand8_of(z as int);
    if x == 0 {
        if y == 0 {
            OpCode::Rlc(operand)
        } else if y == 1 {
            OpCode::Rrc(operand)
        } else if y == 2 {
            OpCode::Rl(operand)
        } else if y == 3 {
            OpCode::Rr(operand)
        } else if y == 4 {
            OpCode::Sla(operand)
        } else if y == 5 {
            OpCode::Sra(operand)
        } else if y == 6 {
            OpCode::Swap(operand)
        } else {
            OpCode::Srl(operand)
        }
    } else if x == 1 {
        OpCode::Bit(bit_of(y as int), operand)
    } else if x == 2 {
        OpCode::Res(bit_of(y as int), operand)
    } else {
        OpCode::SetBit(bit_of(y as int), operand)
    }
}

fn reg8(v: u8) -> (r: Register)
    ensures
        r == reg8_of(v as int),
{
    match v {
        0 => Register::B,
        1 => Register::C,
        2 => Register::D,
        3 => Register::E,
        4 => Register::H,
        5 => Register::L,
        _ => Register::A,
    }
}

fn operand8(v: u8) -> (r: AddressingMode)
    ensures
        r == operand8_of(v as int),
{
    if v == 6 {
        AddressingMode::IndirectRegister(RegisterPairs::HL)
    } else {
        AddressingMode::Register(reg8(v))
    }
}

fn pair(p: u8) -> (r: RegisterPairs)
    ensures
        r == pair_of(p as int),
{
    match p {
        0 => RegisterPair::BC.into_generalized(),
        1 => RegisterPair::DE.into_generalized(),
        2 => RegisterPair::HL.into_generalized(),
        _ => RegisterPair::SP.into_generalized(),
    }
}

fn mem_pair(p: u8) -> (r: RegisterPairs)
    ensures
        r == mem_pair_of(p as int),
{
    match p {
        0 => RegisterPairMem::BC.into_generalized(),
        1 => RegisterPairMem::DE.into_generalized(),
        2 => RegisterPairMem::HLINC.into_generalized(),
        _ => RegisterPairMem::HLDEC.into_generalized(),
    }
}

fn stack_pair(p: u8) -> (r: RegisterPairStack)
    ensures
        r == stack_pair_of(p as int),
{
    match p {
        0 => RegisterPairStack::BC,
        1 => RegisterPairStack::DE,
        2 => RegisterPairStack::HL,
        _ => RegisterPairStack::AF,
    }
}

fn condition(c: u8) -> (r: Condition)
    ensures
        r == condition_of(c as int),
{
    match c {
        0 => Condition::NZ,
        1 => Condition::Z,
        2 => Condition::NC,
        _ => Condition::C,
    }
}

fn reset_target(t: u8) -> (r: ResetTarget)
    ensures
        r == reset_target_of(t as int),
{
    match t {
        0 => ResetTarget::Addr0x00,
        1 => ResetTarget::Addr0x08,
        2 => ResetTarget::Addr0x10,
        3 => ResetTarget::Addr0x18,
        4 => ResetTarget::Addr0x20,
        5 => ResetTarget::Addr0x28,
        6 => ResetTarget::Addr0x30,
        _ => ResetTarget::Addr0x38,
    }
}

fn bit_index(b: u8) -> (r: Bit)
    ensures
        r == bit_of(b as int),
{
    match b {
        0 => Bit::Bit0,
        1 => Bit::Bit1,
        2 => Bit::Bit2,
        3 => Bit::Bit3,
        4 => Bit::Bit4,
        5 => Bit::Bit5,
        6 => Bit::Bit6,
        _ => Bit::Bit7,
    }
}

fn alu_op(y: u8, src: AddressingMode) -> (r: OpCode)
    ensures
        r == alu_op_of(y as int, src),
{
    let a = AddressingMode::Register(Register::A);
    match y {
        0 => OpCode::Add8(a, src),
        1 => OpCode::Adc8(a, src),
        2 => OpCode::Sub8(a, src),
        3 => OpCode::Sbc8(a, src),
        4 => OpCode::And8(a, src),
        5 => OpCode::Xor8(a, src),
        6 => OpCode::Or8(a, src),
        _ => OpCode::Cp8(a, src),
    }
}

fn decode_x0(y: u8, z: u8) -> (r: OpCode)
    requires
        y < 8,
        z < 8,
    ensures
        r == decode_block0(y as int, z as int),
{
    let p = y / 2;
    let q = y % 2;
    match z {
        0 => match y {
            0 => OpCode::Nop,
            1 => OpCode::Ld16(AddressingMode::IndirectImmediate, AddressingMode::RegisterPair(RegisterPairs::SP)),
            2 => OpCode::Stop,
            3 => OpCode::JrImm(None),
            _ => OpCode::JrImm(Some(condition(y - 4))),
        },
        1 => if q == 0 {
            OpCode::Ld16(AddressingMode::RegisterPair(pair(p)), AddressingMode::Immediate16)
        } else {
            OpCode::Add16(AddressingMode::RegisterPair(RegisterPair::HL.into_generalized()), AddressingMode::RegisterPair(pair(p)))
        },
        2 => if q == 0 {
            OpCode::Ld8(AddressingMode::IndirectRegister(mem_pair(p)), AddressingMode::Register(Register::A))
        } else {
            OpCode::Ld8(AddressingMode::Register(Register::A), AddressingMode::IndirectRegister(mem_pair(p)))
        },
        3 => if q == 0 {
            OpCode::Inc16(AddressingMode::RegisterPair(pair(p)))
        } else {
            OpCode::Dec16(AddressingMode::RegisterPair(pair(p)))
        },
        4 => OpCode::Inc8(operand8(y)),
        5 => OpCode::Dec8(operand8(y)),
        6 => OpCode::Ld8(operand8(y), AddressingMode::Immediate),
        _ => match y {
            0 => OpCode::Rlca,
            1 => OpCode::Rrca,
            2 => OpCode::Rla,
            3 => OpCode::Rra,
            4 => OpCode::Daa,
            5 => OpCode::Cpl,
            6 => OpCode::Scf,
            _ => OpCode::Ccf,
        },
    }
}

fn decode_x3(y: u8, z: u8) -> (r: OpCode)
    requires
        y < 8,
        z < 8,
    ensures
        r == decode_block3(y as int, z as int),
{
    let p = y / 2;
    let q = y % 2;
    let a = AddressingMode::Register(Register::A);
    match z {
        0 => match y {
            0 | 1 | 2 | 3 => OpCode::Ret(Some(condition(y))),
            4 => OpCode::Ld8(AddressingMode::IndirectZeroPageImmediate, a),
            5 => OpCode::AddSpImm,
            6 => OpCode::Ld8(a, AddressingMode::IndirectZeroPageImmediate),
            _ => OpCode::Ld16HlSpImm,
        },
        1 => if q == 0 {
            OpCode::Pop(stack_pair(p))
        } else {
            match p {
                0 => OpCode::Ret(None),
                1 => OpCode::Reti,
                2 => OpCode::JpHl,
                _ => OpCode::Ld16(AddressingMode::RegisterPair(RegisterPairs::SP), AddressingMode::RegisterPair(RegisterPairs::HL)),
            }
        },
        2 => match y {
            0 | 1 | 2 | 3 => OpCode::JpImm(Some(condition(y))),
            4 => OpCode::Ld8(AddressingMode::IndirectZeroPageRegister(Register::C), a),
            5 => OpCode::Ld8(AddressingMode::IndirectImmediate, a),
            6 => OpCode::Ld8(a, AddressingMode::IndirectZeroPageRegister(Register::C)),
            _ => OpCode::Ld8(a, AddressingMode::IndirectImmediate),
        },
        3 => match y {
            0 => OpCode::JpImm(None),
            1 => OpCode::Prefix,
            6 => OpCode::Di,
            7 => OpCode::Ei,
            _ => OpCode::Illegal,
        },
        4 => if y < 4 {
            OpCode::CallImm(Some(condition(y)))
        } else {
            OpCode::Illegal
        },
        5 => if q == 0 {
            OpCode::Push(stack_pair(p))
        } else if p == 0 {
            OpCode::CallImm(None)
        } else {
            OpCode::Illegal
        },
        6 => alu_op(y, AddressingMode::Immediate),
        _ => OpCode::Reset(reset_target(y)),
    }
}

/// Decodes a single instruction. May return an `OpCode::Prefix` value, which indicates that
/// this instruction is prefixed, and `decode_prefixed` must be invoked with the next byte in
/// the stream.
pub fn decode(byte: u8) -> (op: OpCode)
    ensures
        op == spec_decode(byte),
{
    let x = byte / 64;
    let y = (byte / 8) % 8;
    let z = byte % 8;
    match x {
        0 => decode_x0(y, z),
        1 => if y == 6 && z == 6 {
            OpCode::Halt
        } else {
            OpCode::Ld8(operand8(y), operand8(z))
        },
        2 => alu_op(y, operand8(z)),
        _ => decode_x3(y, z),
    }
}

/// Decodes a prefixed instruction by looking at the byte after the 0xCB prefix byte.
pub fn decode_prefixed(byte: u8) -> (op: OpCode)
    ensures
        op == spec_decode_prefixed(byte),
{
    let x = byte / 64;
    let y = (byte / 8) % 8;
    let z = byte % 8;
    let operand = operand8(z);
    match x {
        0 => match y {
            0 => OpCode::Rlc(operand),
            1 => OpCode::Rrc(operand),
            2 => OpCode::Rl(operand),
            3 => OpCode::Rr(operand),
            4 => OpCode::Sla(operand),
            5 => OpCode::Sra(operand),
            6 => OpCode::Swap(operand),
            _ => OpCode::Srl(operand),
        },
        1 => OpCode::Bit(bit_index(y), operand),
        2 => OpCode::Res(bit_index(y), operand),
        _ => OpCode::SetBit(bit_index(y), operand),
    }
}

} // verus!
