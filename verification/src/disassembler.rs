//! A disassembler of SM83 code: decodes a stream of bytes into instructions with their
//! operands, and writes them as text.
use vstd::prelude::*;

use crate::address_space::{GbAddressSpace, gb_read, gb_wf};
use crate::decoder::{
    self, Bit, Condition, OpCode, Register, RegisterPairs, ResetTarget, decode, decode_prefixed,
    spec_decode, spec_decode_prefixed,
};
use crate::header::{
    self, CartridgeHeader, header_result_ok, rom_size_code_ok, title_bytes, title_is_valid,
};
use vstd::string::StringExecFns;
use vstd::utf8::valid_utf8;
use crate::memory::{Address, Memory};

verus! {

/// A disassembler error
#[derive(Debug, Clone, Copy, PartialEq, Eq, Structural)]
pub enum Error {
    /// The entrypoint of the cartridge holds no unconditional jump
    NoEntrypoint,
    /// The cartridge header is not valid
    CartridgeError(header::Error),
}

impl From<header::Error> for Error {
    fn from(value: header::Error) -> (r: Self) {
        Self::CartridgeError(value)
    }
}

impl vstd::std_specs::convert::FromSpecImpl<header::Error> for Error {
    open spec fn obeys_from_spec() -> bool {
        true
    }

    open spec fn from_spec(v: header::Error) -> Self {
        Error::CartridgeError(v)
    }
}

/// An operand of a disassembled instruction, with its immediate value
#[derive(Debug, Clone, Copy, PartialEq, Eq, Structural)]
pub enum AddressingMode {
    /// The memory at the address in a register pair
    IndirectRegister(RegisterPairs),
    /// The memory at 0xFF00 plus a register
    IndirectZeroPageRegister(Register),
    /// The memory at an immediate address
    IndirectImmediate(u16),
    /// The memory at 0xFF00 plus an immediate byte
    IndirectZeroPageImmediate(u8),
    /// A register
    Register(Register),
    /// A register pair
    RegisterPair(RegisterPairs),
    /// An immediate byte
    Immediate(u8),
    /// An immediate word
    Immediate16(u16),
}

/// A disassembled instruction
#[derive(Debug, Clone, Copy, PartialEq, Eq, Structural)]
pub enum Instruction {
    /// ld 8-bit instruction
    Ld8(AddressingMode, AddressingMode),
    /// ld 16-bit instruction
    Ld16(AddressingMode, AddressingMode),
    /// add 8-bit instruction
    Add8(AddressingMode, AddressingMode),
    /// sub 8-bit instruction
    Sub8(AddressingMode, AddressingMode),
    /// and 8-bit instruction
    And8(AddressingMode, AddressingMode),
    /// or 8-bit instruction
    Or8(AddressingMode, AddressingMode),
    /// adc 8-bit instruction
    Adc8(AddressingMode, AddressingMode),
    /// sbc 8-bit instruction
    Sbc8(AddressingMode, AddressingMode),
    /// xor 8-bit instruction
    Xor8(AddressingMode, AddressingMode),
    /// cp 8-bit instruction
    Cp8(AddressingMode, AddressingMode),
    /// add 16-bit instruction
    Add16(AddressingMode, AddressingMode),
    /// inc 8-bit
    Inc8(AddressingMode),
    /// dec 8-bit
    Dec8(AddressingMode),
    /// inc 16-bit
    Inc16(AddressingMode),
    /// dec 16-bit
    Dec16(AddressingMode),
    /// jr 8-bit immediate, with or without condition
    JrImm(Option<Condition>, i8),
    /// ret with optional condition
    Ret(Option<Condition>),
    /// reti
    Reti,
    /// jp imm16, optional condition
    JpImm(Option<Condition>, u16),
    /// jp HL
    JpHl,
    /// call imm16, optional condition
    CallImm(Option<Condition>, u16),
    /// reset target
    Reset(ResetTarget),
    /// pop
    Pop(RegisterPairs),
    /// push
    Push(RegisterPairs),
    /// add SP, n8
    AddSpImm(i8),
    /// ld HL, SP + n8
    Ld16HlSpImm(i8),
    /// di
    Di,
    /// ei
    Ei,
    /// halt
    Halt,
    /// nop
    Nop,
    /// rlca
    Rlca,
    /// rrca
    Rrca,
    /// rla
    Rla,
    /// rra
    Rra,
    /// daa
    Daa,
    /// cpl
    Cpl,
    /// scf
    Scf,
    /// ccf
    Ccf,
    /// stop
    Stop,
    /// rlc
    Rlc(AddressingMode),
    /// rrc
    Rrc(AddressingMode),
    /// rl
    Rl(AddressingMode),
    /// rr
    Rr(AddressingMode),
    /// sla
    Sla(AddressingMode),
    /// sra
    Sra(AddressingMode),
    /// swap
    Swap(AddressingMode),
    /// srl
    Srl(AddressingMode),
    /// bit #bit
    Bit(Bit, AddressingMode),
    /// res #bit
    Res(Bit, AddressingMode),
    /// set #bit
    SetBit(Bit, AddressingMode),
    /// Illegal
    Illegal,
}

/// The state of an instruction stream: the bytes, the position of the next byte, and the
/// address that the stream reports for its next instruction.
pub struct IterState {
    /// The bytes of the stream
    pub bytes: Seq<u8>,
    /// The position of the next byte
    pub pos: nat,
    /// The address of the next instruction
    pub address: usize,
}

/// The number of immediate bytes that an operand holds.
pub open spec fn operand_len(mode: decoder::AddressingMode) -> nat {
    match mode {
        decoder::AddressingMode::IndirectImmediate => 2,
        decoder::AddressingMode::Immediate16 => 2,
        decoder::AddressingMode::IndirectZeroPageImmediate => 1,
        decoder::AddressingMode::Immediate => 1,
        _ => 0,
    }
}

/// The little-endian word at position `pos`.
pub open spec fn word_at(bytes: Seq<u8>, pos: int) -> u16 {
    (bytes[pos] as u16) | ((bytes[pos + 1] as u16) << 8u16)
}

/// The operand `mode` with its immediate bytes at position `pos`.
pub open spec fn operand_at(bytes: Seq<u8>, pos: int, mode: decoder::AddressingMode) -> AddressingMode {
    match mode {
        decoder::AddressingMode::IndirectRegister(rp) => AddressingMode::IndirectRegister(rp),
        decoder::AddressingMode::IndirectZeroPageRegister(r) => AddressingMode::IndirectZeroPageRegister(r),
        decoder::AddressingMode::IndirectImmediate => AddressingMode::IndirectImmediate(word_at(bytes, pos)),
        decoder::AddressingMode::IndirectZeroPageImmediate => AddressingMode::IndirectZeroPageImmediate(
            bytes[pos],
        ),
        decoder::AddressingMode::Register(r) => AddressingMode::Register(r),
        decoder::AddressingMode::RegisterPair(rp) => AddressingMode::RegisterPair(rp),
        decoder::AddressingMode::Immediate => AddressingMode::Immediate(bytes[pos]),
        decoder::AddressingMode::Immediate16 => AddressingMode::Immediate16(word_at(bytes, pos)),
    }
}

/// The operands of an opcode that are read from the stream: the two operands of a binary
/// opcode, the operand of a unary one.
pub open spec fn operands_of(op: OpCode) -> Seq<decoder::AddressingMode> {
    match op {
        OpCode::Ld8(d, s) => seq![d, s],
        OpCode::Ld16(d, s) => seq![d, s],
        OpCode::Add8(d, s) => seq![d, s],
        OpCode::Sub8(d, s) => seq![d, s],
        OpCode::And8(d, s) => seq![d, s],
        OpCode::Or8(d, s) => seq![d, s],
        OpCode::Adc8(d, s) => seq![d, s],
        OpCode::Sbc8(d, s) => seq![d, s],
        OpCode::Xor8(d, s) => seq![d, s],
        OpCode::Cp8(d, s) => seq![d, s],
        OpCode::Add16(d, s) => seq![d, s],
        OpCode::Inc8(m) => seq![m],
        OpCode::Dec8(m) => seq![m],
        OpCode::Inc16(m) => seq![m],
        OpCode::Dec16(m) => seq![m],
        OpCode::Rlc(m) => seq![m],
        OpCode::Rrc(m) => seq![m],
        OpCode::Rl(m) => seq![m],
        OpCode::Rr(m) => seq![m],
        OpCode::Sla(m) => seq![m],
        OpCode::Sra(m) => seq![m],
        OpCode::Swap(m) => seq![m],
        OpCode::Srl(m) => seq![m],
        OpCode::Bit(_, m) => seq![m],
        OpCode::Res(_, m) => seq![m],
        OpCode::SetBit(_, m) => seq![m],
        _ => seq![],
    }
}

/// The number of immediate bytes of the operands of an opcode.
pub open spec fn operands_len(op: OpCode) -> nat {
    let ops = operands_of(op);
    if ops.len() == 2 {
        operand_len(ops[0]) + operand_len(ops[1])
    } else if ops.len() == 1 {
        operand_len(ops[0])
    } else {
        0
    }
}

/// The instruction of a binary opcode with its operands `d` and `src`.
pub open spec fn binary_insn(op: OpCode, d: AddressingMode, src: AddressingMode) -> Instruction {
    match op {
        OpCode::Ld8(_, _) => Instruction::Ld8(d, src),
        OpCode::Ld16(_, _) => Instruction::Ld16(d, src),
        OpCode::Add8(_, _) => Instruction::Add8(d, src),
        OpCode::Sub8(_, _) => Instruction::Sub8(d, src),
        OpCode::And8(_, _) => Instruction::And8(d, src),
        OpCode::Or8(_, _) => Instruction::Or8(d, src),
        OpCode::Adc8(_, _) => Instruction::Adc8(d, src),
        OpCode::Sbc8(_, _) => Instruction::Sbc8(d, src),
        OpCode::Xor8(_, _) => Instruction::Xor8(d, src),
        OpCode::Cp8(_, _) => Instruction::Cp8(d, src),
        _ => Instruction::Add16(d, src),
    }
}

/// The instruction of a unary opcode with its operand `m`.
pub open spec fn unary_insn(op: OpCode, m: AddressingMode) -> Instruction {
    match op {
        OpCode::Inc8(_) => Instruction::Inc8(m),
        OpCode::Dec8(_) => Instruction::Dec8(m),
        OpCode::Inc16(_) => Instruction::Inc16(m),
        OpCode::Dec16(_) => Instruction::Dec16(m),
        OpCode::Rlc(_) => Instruction::Rlc(m),
        OpCode::Rrc(_) => Instruction::Rrc(m),
        OpCode::Rl(_) => Instruction::Rl(m),
        OpCode::Rr(_) => Instruction::Rr(m),
        OpCode::Sla(_) => Instruction::Sla(m),
        OpCode::Sra(_) => Instruction::Sra(m),
        OpCode::Swap(_) => Instruction::Swap(m),
        OpCode::Srl(_) => Instruction::Srl(m),
        OpCode::Bit(bit, _) => Instruction::Bit(bit, m),
        OpCode::Res(bit, _) => Instruction::Res(bit, m),
        OpCode::SetBit(bit, _) => Instruction::SetBit(bit, m),
        _ => Instruction::Illegal,
    }
}

/// The instruction of an opcode that reads no operand with `operand_at`.
pub open spec fn other_insn(s: IterState, op: OpCode, at: usize) -> (IterState, Option<(usize, Instruction)>) {
    match op {
        OpCode::JrImm(c) => imm8_insn(s, at, |v: i8| Instruction::JrImm(c, v)),
        OpCode::AddSpImm => imm8_insn(s, at, |v: i8| Instruction::AddSpImm(v)),
        OpCode::Ld16HlSpImm => imm8_insn(s, at, |v: i8| Instruction::Ld16HlSpImm(v)),
        OpCode::JpImm(c) => imm16_insn(s, at, |v: u16| Instruction::JpImm(c, v)),
        OpCode::CallImm(c) => imm16_insn(s, at, |v: u16| Instruction::CallImm(c, v)),
        _ => (s, Some((at, simple_insn(op)))),
    }
}

/// The instruction of opcode `op` whose operand bytes start at the position of `s`, the stream
/// after it, and the instruction with its address `at`. Every immediate byte advances the
/// address of the next instruction. An immediate that the stream lacks ends it.
pub open spec fn spec_operands(s: IterState, op: OpCode, at: usize) -> (IterState, Option<(usize, Instruction)>) {
    let b = s.bytes;
    let p = s.pos as int;
    let ops = operands_of(op);
    if ops.len() == 2 {
        let d = operand_at(b, p, ops[0]);
        let src = operand_at(b, p + operand_len(ops[0]), ops[1]);
        let n = operand_len(ops[0]) + operand_len(ops[1]);
        (
            IterState { pos: (p + n) as nat, address: (s.address + n) as usize, ..s },
            Some((at, binary_insn(op, d, src))),
        )
    } else if ops.len() == 1 {
        let m = operand_at(b, p, ops[0]);
        let n = operand_len(ops[0]);
        (
            IterState { pos: (p + n) as nat, address: (s.address + n) as usize, ..s },
            Some((at, unary_insn(op, m))),
        )
    } else {
        other_insn(s, op, at)
    }
}

/// An instruction with a signed immediate byte.
pub open spec fn imm8_insn(s: IterState, at: usize, f: spec_fn(i8) -> Instruction) -> (
    IterState,
    Option<(usize, Instruction)>,
) {
    if s.pos < s.bytes.len() {
        (
            IterState { pos: s.pos + 1, address: (s.address + 1) as usize, ..s },
            Some((at, f(s.bytes[s.pos as int] as i8))),
        )
    } else {
        (s, None)
    }
}

/// An instruction with an immediate word.
pub open spec fn imm16_insn(s: IterState, at: usize, f: spec_fn(u16) -> Instruction) -> (
    IterState,
    Option<(usize, Instruction)>,
) {
    if s.pos + 1 < s.bytes.len() {
        (
            IterState { pos: s.pos + 2, address: (s.address + 2) as usize, ..s },
            Some((at, f(word_at(s.bytes, s.pos as int)))),
        )
    } else if s.pos < s.bytes.len() {
        (IterState { pos: s.pos + 1, ..s }, None)
    } else {
        (s, None)
    }
}

/// The instruction of an opcode without operands.
pub open spec fn simple_insn(op: OpCode) -> Instruction {
    match op {
        OpCode::Ret(c) => Instruction::Ret(c),
        OpCode::Reti => Instruction::Reti,
        OpCode::JpHl => Instruction::JpHl,
        OpCode::Reset(t) => Instruction::Reset(t),
        OpCode::Pop(rp) => Instruction::Pop(rp.spec_generalized()),
        OpCode::Push(rp) => Instruction::Push(rp.spec_generalized()),
        OpCode::Di => Instruction::Di,
        OpCode::Ei => Instruction::Ei,
        OpCode::Halt => Instruction::Halt,
        OpCode::Nop => Instruction::Nop,
        OpCode::Rlca => Instruction::Rlca,
        OpCode::Rrca => Instruction::Rrca,
        OpCode::Rla => Instruction::Rla,
        OpCode::Rra => Instruction::Rra,
        OpCode::Daa => Instruction::Daa,
        OpCode::Cpl => Instruction::Cpl,
        OpCode::Scf => Instruction::Scf,
        OpCode::Ccf => Instruction::Ccf,
        OpCode::Stop => Instruction::Stop,
        _ => Instruction::Illegal,
    }
}

/// The next instruction of the stream, with the address it is reported at, and the stream
/// after it: an opcode byte, a second opcode byte after the 0xCB prefix, then the operands.
/// The stream ends when it lacks a byte.
pub open spec fn spec_next(s: IterState) -> (IterState, Option<(usize, Instruction)>) {
    let b = s.bytes;
    let p = s.pos as int;
    if p >= b.len() {
        (s, None)
    } else {
        let at = s.address;
        let op0 = spec_decode(b[p]);
        if op0 is Prefix {
            if p + 1 >= b.len() {
                (IterState { pos: (p + 1) as nat, address: (at + 1) as usize, ..s }, None)
            } else {
                spec_operands(
                    IterState { pos: (p + 2) as nat, address: (at + 2) as usize, ..s },
                    spec_decode_prefixed(b[p + 1]),
                    at,
                )
            }
        } else {
            spec_operands(IterState { pos: (p + 1) as nat, address: (at + 1) as usize, ..s }, op0, at)
        }
    }
}

/// The stream holds the immediate operands of its next instruction, if it holds one.
pub open spec fn next_fits(s: IterState) -> bool {
    let b = s.bytes;
    let p = s.pos as int;
    if p >= b.len() {
        true
    } else if spec_decode(b[p]) is Prefix {
        p + 1 >= b.len() || p + 2 + operands_len(spec_decode_prefixed(b[p + 1])) <= b.len()
    } else {
        p + 1 + operands_len(spec_decode(b[p])) <= b.len()
    }
}

/// An iterator over the instructions of a stream of bytes, with their addresses
pub struct InstructionIter<'a> {
    address: usize,
    data: &'a [u8],
    pos: usize,
}

impl<'a> View for InstructionIter<'a> {
    type V = IterState;

    closed spec fn view(&self) -> IterState {
        IterState { bytes: self.data@, pos: self.pos as nat, address: self.address }
    }
}

/// The stream fits its addresses: the position is within the bytes, and the address can
/// advance by every byte that is left.
pub open spec fn iter_wf(s: IterState) -> bool {
    &&& s.pos <= s.bytes.len()
    &&& s.address + (s.bytes.len() - s.pos) <= usize::MAX
}

impl<'a> InstructionIter<'a> {
    #[verifier::type_invariant]
    spec fn inv(&self) -> bool {
        iter_wf(self@)
    }

    /// An iterator over the instructions of `data`, the first at address `base`
    pub fn new(data: &'a [u8], base: usize) -> (r: Self)
        requires
            base + data@.len() <= usize::MAX,
        ensures
            r@ == (IterState { bytes: data@, pos: 0, address: base }),
    {
        Self { data, address: base, pos: 0 }
    }

    fn next_with_address(&mut self) -> (r: Option<(usize, u8)>)
        ensures
            old(self)@.pos < old(self)@.bytes.len() ==> r == Some(
                (old(self)@.address, old(self)@.bytes[old(self)@.pos as int]),
            ) && final(self)@ == (IterState {
                pos: old(self)@.pos + 1,
                address: (old(self)@.address + 1) as usize,
                ..old(self)@
            }),
            old(self)@.pos >= old(self)@.bytes.len() ==> r is None && final(self)@ == old(self)@,
    {
        proof {
            use_type_invariant(&*self);
        }
        if self.pos >= self.data.len() {
            return None;
        }
        let next = self.data[self.pos];
        self.pos = self.pos + 1;
        let addr = self.address;
        self.address = self.address + 1;
        Some((addr, next))
    }

    fn read_8_bit_imm(&mut self) -> (r: Option<u8>)
        ensures
            old(self)@.pos < old(self)@.bytes.len() ==> r == Some(
                old(self)@.bytes[old(self)@.pos as int],
            ) && final(self)@ == (IterState {
                pos: old(self)@.pos + 1,
                address: (old(self)@.address + 1) as usize,
                ..old(self)@
            }),
            old(self)@.pos >= old(self)@.bytes.len() ==> r is None && final(self)@ == old(self)@,
    {
        proof {
            use_type_invariant(&*self);
        }
        if self.pos >= self.data.len() {
            return None;
        }
        let next = self.data[self.pos];
        self.pos = self.pos + 1;
        self.address = self.address + 1;
        Some(next)
    }

    fn read_16_bit_imm(&mut self) -> (r: Option<u16>)
        ensures
            old(self)@.pos + 1 < old(self)@.bytes.len() ==> r == Some(
                word_at(old(self)@.bytes, old(self)@.pos as int),
            ) && final(self)@ == (IterState {
                pos: old(self)@.pos + 2,
                address: (old(self)@.address + 2) as usize,
                ..old(self)@
            }),
            old(self)@.pos + 1 == old(self)@.bytes.len() ==> r is None && final(self)@ == (
            IterState { pos: old(self)@.pos + 1, ..old(self)@ }),
            old(self)@.pos >= old(self)@.bytes.len() ==> r is None && final(self)@ == old(self)@,
    {
        proof {
            use_type_invariant(&*self);
        }
        if self.pos >= self.data.len() {
            return None;
        }
        let lo = self.data[self.pos];
        self.pos = self.pos + 1;
        if self.pos >= self.data.len() {
            return None;
        }
        let hi = self.data[self.pos];
        self.pos = self.pos + 1;
        self.address = self.address + 2;
        Some(lo as u16 | ((hi as u16) << 8))
    }
}


impl<'a> InstructionIter<'a> {
    fn translate_addr_mode(&mut self, mode: decoder::AddressingMode) -> (r: AddressingMode)
        requires
            old(self)@.pos + operand_len(mode) <= old(self)@.bytes.len(),
        ensures
            r == operand_at(old(self)@.bytes, old(self)@.pos as int, mode),
            final(self)@ == (IterState {
                pos: old(self)@.pos + operand_len(mode),
                address: (old(self)@.address + operand_len(mode)) as usize,
                ..old(self)@
            }),
    {
        match mode {
            decoder::AddressingMode::IndirectRegister(reg_pair) => AddressingMode::IndirectRegister(
                reg_pair,
            ),
            decoder::AddressingMode::IndirectZeroPageRegister(reg) => {
                AddressingMode::IndirectZeroPageRegister(reg)
            },
            decoder::AddressingMode::IndirectImmediate => {
                AddressingMode::IndirectImmediate(self.read_u16())
            },
            decoder::AddressingMode::IndirectZeroPageImmediate => {
                AddressingMode::IndirectZeroPageImmediate(self.read_u8())
            },
            decoder::AddressingMode::Register(reg) => AddressingMode::Register(reg),
            decoder::AddressingMode::RegisterPair(reg) => AddressingMode::RegisterPair(reg),
            decoder::AddressingMode::Immediate => AddressingMode::Immediate(self.read_u8()),
            decoder::AddressingMode::Immediate16 => AddressingMode::Immediate16(self.read_u16()),
        }
    }

    fn read_u8(&mut self) -> (r: u8)
        requires
            old(self)@.pos < old(self)@.bytes.len(),
        ensures
            r == old(self)@.bytes[old(self)@.pos as int],
            final(self)@ == (IterState {
                pos: old(self)@.pos + 1,
                address: (old(self)@.address + 1) as usize,
                ..old(self)@
            }),
    {
        proof {
            use_type_invariant(&*self);
        }
        let v = self.data[self.pos];
        self.pos = self.pos + 1;
        self.address = self.address + 1;
        v
    }

    fn read_u16(&mut self) -> (r: u16)
        requires
            old(self)@.pos + 1 < old(self)@.bytes.len(),
        ensures
            r == word_at(old(self)@.bytes, old(self)@.pos as int),
            final(self)@ == (IterState {
                pos: old(self)@.pos + 2,
                address: (old(self)@.address + 2) as usize,
                ..old(self)@
            }),
    {
        proof {
            use_type_invariant(&*self);
        }
        let lo = self.read_u8();
        let hi = self.read_u8();
        (lo as u16) | ((hi as u16) << 8)
    }

    /// Whether the stream holds the immediate operands of its next instruction
    pub fn next_fits(&self) -> (r: bool)
        ensures
            r == next_fits(self@),
    {
        proof {
            use_type_invariant(self);
        }
        if self.pos >= self.data.len() {
            return true;
        }
        let op0 = decode(self.data[self.pos]);
        if matches!(op0, OpCode::Prefix) {
            self.pos + 1 >= self.data.len() || operands_length(
                decode_prefixed(self.data[self.pos + 1]),
            ) <= self.data.len() - self.pos - 2
        } else {
            operands_length(op0) <= self.data.len() - self.pos - 1
        }
    }

    /// The next instruction, with its address; `None` at the end of the stream
    pub fn next(&mut self) -> (r: Option<(usize, Instruction)>)
        requires
            next_fits(old(self)@),
        ensures
            (final(self)@, r) == spec_next(old(self)@),
    {
        proof {
            use_type_invariant(&*self);
        }
        let (addr, next) = match self.next_with_address() {
            Some(v) => v,
            None => {
                return None;
            },
        };
        let op0 = decode(next);
        let decoded = if matches!(op0, OpCode::Prefix) {
            match self.next_with_address() {
                Some((_, byte)) => decode_prefixed(byte),
                None => {
                    return None;
                },
            }
        } else {
            op0
        };
        self.decode_operands(decoded, addr)
    }

    fn decode_operands(&mut self, op: OpCode, at: usize) -> (r: Option<(usize, Instruction)>)
        requires
            old(self)@.pos + operands_len(op) <= old(self)@.bytes.len(),
        ensures
            (final(self)@, r) == spec_operands(old(self)@, op, at),
    {
        proof {
            use_type_invariant(&*self);
        }
        let (n, first, second) = operand_modes(op);
        if n == 2 {
            let dest = self.translate_addr_mode(first);
            let src = self.translate_addr_mode(second);
            Some((at, make_binary(op, dest, src)))
        } else if n == 1 {
            let mode = self.translate_addr_mode(first);
            Some((at, make_unary(op, mode)))
        } else {
            self.decode_other(op, at)
        }
    }

    fn decode_other(&mut self, op: OpCode, at: usize) -> (r: Option<(usize, Instruction)>)
        requires
            operands_of(op).len() == 0,
        ensures
            (final(self)@, r) == other_insn(old(self)@, op, at),
    {
        let insn = match op {
            OpCode::JrImm(cond) => match self.read_8_bit_imm() {
                Some(v) => Instruction::JrImm(cond, v as i8),
                None => {
                    return None;
                },
            },
            OpCode::AddSpImm => match self.read_8_bit_imm() {
                Some(v) => Instruction::AddSpImm(v as i8),
                None => {
                    return None;
                },
            },
            OpCode::Ld16HlSpImm => match self.read_8_bit_imm() {
                Some(v) => Instruction::Ld16HlSpImm(v as i8),
                None => {
                    return None;
                },
            },
            OpCode::JpImm(cond) => match self.read_16_bit_imm() {
                Some(v) => Instruction::JpImm(cond, v),
                None => {
                    return None;
                },
            },
            OpCode::CallImm(cond) => match self.read_16_bit_imm() {
                Some(v) => Instruction::CallImm(cond, v),
                None => {
                    return None;
                },
            },
            _ => simple_instruction(op),
        };
        Some((at, insn))
    }
}

fn operand_modes(op: OpCode) -> (r: (usize, decoder::AddressingMode, decoder::AddressingMode))
    ensures
        r.0 == operands_of(op).len(),
        r.0 >= 1 ==> r.1 == operands_of(op)[0],
        r.0 == 2 ==> r.2 == operands_of(op)[1],
{
    match op {
        OpCode::Ld8(d, s) => (2, d, s),
        OpCode::Ld16(d, s) => (2, d, s),
        OpCode::Add8(d, s) => (2, d, s),
        OpCode::Sub8(d, s) => (2, d, s),
        OpCode::And8(d, s) => (2, d, s),
        OpCode::Or8(d, s) => (2, d, s),
        OpCode::Adc8(d, s) => (2, d, s),
        OpCode::Sbc8(d, s) => (2, d, s),
        OpCode::Xor8(d, s) => (2, d, s),
        OpCode::Cp8(d, s) => (2, d, s),
        OpCode::Add16(d, s) => (2, d, s),
        OpCode::Inc8(m) => (1, m, m),
        OpCode::Dec8(m) => (1, m, m),
        OpCode::Inc16(m) => (1, m, m),
        OpCode::Dec16(m) => (1, m, m),
        OpCode::Rlc(m) => (1, m, m),
        OpCode::Rrc(m) => (1, m, m),
        OpCode::Rl(m) => (1, m, m),
        OpCode::Rr(m) => (1, m, m),
        OpCode::Sla(m) => (1, m, m),
        OpCode::Sra(m) => (1, m, m),
        OpCode::Swap(m) => (1, m, m),
        OpCode::Srl(m) => (1, m, m),
        OpCode::Bit(_, m) => (1, m, m),
        OpCode::Res(_, m) => (1, m, m),
        OpCode::SetBit(_, m) => (1, m, m),
        _ => (0, decoder::AddressingMode::Immediate, decoder::AddressingMode::Immediate),
    }
}

fn make_binary(op: OpCode, d: AddressingMode, src: AddressingMode) -> (r: Instruction)
    ensures
        r == binary_insn(op, d, src),
{
    match op {
        OpCode::Ld8(_, _) => Instruction::Ld8(d, src),
        OpCode::Ld16(_, _) => Instruction::Ld16(d, src),
        OpCode::Add8(_, _) => Instruction::Add8(d, src),
        OpCode::Sub8(_, _) => Instruction::Sub8(d, src),
        OpCode::And8(_, _) => Instruction::And8(d, src),
        OpCode::Or8(_, _) => Instruction::Or8(d, src),
        OpCode::Adc8(_, _) => Instruction::Adc8(d, src),
        OpCode::Sbc8(_, _) => Instruction::Sbc8(d, src),
        OpCode::Xor8(_, _) => Instruction::Xor8(d, src),
        OpCode::Cp8(_, _) => Instruction::Cp8(d, src),
        _ => Instruction::Add16(d, src),
    }
}

fn make_unary(op: OpCode, m: AddressingMode) -> (r: Instruction)
    ensures
        r == unary_insn(op, m),
{
    match op {
        OpCode::Inc8(_) => Instruction::Inc8(m),
        OpCode::Dec8(_) => Instruction::Dec8(m),
        OpCode::Inc16(_) => Instruction::Inc16(m),
        OpCode::Dec16(_) => Instruction::Dec16(m),
        OpCode::Rlc(_) => Instruction::Rlc(m),
        OpCode::Rrc(_) => Instruction::Rrc(m),
        OpCode::Rl(_) => Instruction::Rl(m),
        OpCode::Rr(_) => Instruction::Rr(m),
        OpCode::Sla(_) => Instruction::Sla(m),
        OpCode::Sra(_) => Instruction::Sra(m),
        OpCode::Swap(_) => Instruction::Swap(m),
        OpCode::Srl(_) => Instruction::Srl(m),
        OpCode::Bit(bit, _) => Instruction::Bit(bit, m),
        OpCode::Res(bit, _) => Instruction::Res(bit, m),
        OpCode::SetBit(bit, _) => Instruction::SetBit(bit, m),
        _ => Instruction::Illegal,
    }
}

fn simple_instruction(op: OpCode) -> (r: Instruction)
    ensures
        r == simple_insn(op),
{
    match op {
        OpCode::Ret(cond) => Instruction::Ret(cond),
        OpCode::Reset(target) => Instruction::Reset(target),
        OpCode::Pop(reg) => Instruction::Pop(reg.into_generalized()),
        OpCode::Push(reg) => Instruction::Push(reg.into_generalized()),
        OpCode::Reti => Instruction::Reti,
        OpCode::JpHl => Instruction::JpHl,
        OpCode::Di => Instruction::Di,
        OpCode::Ei => Instruction::Ei,
        OpCode::Halt => Instruction::Halt,
        OpCode::Nop => Instruction::Nop,
        OpCode::Rlca => Instruction::Rlca,
        OpCode::Rrca => Instruction::Rrca,
        OpCode::Rla => Instruction::Rla,
        OpCode::Rra => Instruction::Rra,
        OpCode::Daa => Instruction::Daa,
        OpCode::Cpl => Instruction::Cpl,
        OpCode::Scf => Instruction::Scf,
        OpCode::Ccf => Instruction::Ccf,
        OpCode::Stop => Instruction::Stop,
        OpCode::Illegal => Instruction::Illegal,
        _ => Instruction::Illegal,
    }
}

fn operand_length(mode: decoder::AddressingMode) -> (r: usize)
    ensures
        r == operand_len(mode),
{
    match mode {
        decoder::AddressingMode::IndirectImmediate => 2,
        decoder::AddressingMode::Immediate16 => 2,
        decoder::AddressingMode::IndirectZeroPageImmediate => 1,
        decoder::AddressingMode::Immediate => 1,
        _ => 0,
    }
}

fn operands_length(op: OpCode) -> (r: usize)
    ensures
        r == operands_len(op),
{
    let (n, first, second) = operand_modes(op);
    if n == 2 {
        operand_length(first) + operand_length(second)
    } else if n == 1 {
        operand_length(first)
    } else {
        0
    }
}

/// An instruction that fits the stream advances it within its bytes.
proof fn lemma_next_progress(s: IterState)
    requires
        iter_wf(s),
        next_fits(s),
        spec_next(s).1 is Some,
    ensures
        s.pos < spec_next(s).0.pos <= s.bytes.len(),
        spec_next(s).0.bytes == s.bytes,
        iter_wf(spec_next(s).0),
{
}

/// A stream that yields no instruction is at its end.
proof fn lemma_next_end(s: IterState)
    requires
        iter_wf(s),
    ensures
        spec_next(s).1 is None ==> spec_next(s).0.pos >= s.bytes.len(),
        spec_next(s).0.bytes == s.bytes,
{
}

/// An opcode holds at most two immediate bytes; a prefixed opcode holds none.
pub proof fn lemma_operands_len(byte: u8)
    ensures
        operands_len(spec_decode(byte)) <= 2,
        operands_len(spec_decode_prefixed(byte)) == 0,
{
}

/// Every instruction fits four bytes.
proof fn lemma_four_bytes_fit(bytes: Seq<u8>, address: usize)
    requires
        bytes.len() == 4,
        address + 4 <= usize::MAX,
    ensures
        next_fits(IterState { bytes: bytes, pos: 0, address: address }),
        spec_next(IterState { bytes: bytes, pos: 0, address: address }).1 is Some,
{
    lemma_operands_len(bytes[0]);
    lemma_operands_len(bytes[1]);
}


/// The stream decodes to its end: every instruction holds its immediate operands.
pub open spec fn stream_fits(s: IterState) -> bool
    decreases s.bytes.len() - s.pos,
{
    if s.pos >= s.bytes.len() {
        true
    } else {
        &&& next_fits(s)
        &&& (spec_next(s).1 is Some && s.pos < spec_next(s).0.pos <= s.bytes.len() ==> stream_fits(
            spec_next(s).0,
        ))
    }
}

/// The target of the last unconditional `jp` of the stream, after `acc`.
pub open spec fn last_jump(s: IterState, acc: Option<u16>) -> Option<u16>
    decreases s.bytes.len() - s.pos,
{
    if s.pos >= s.bytes.len() {
        acc
    } else {
        let (s2, r) = spec_next(s);
        if s2.pos <= s.pos || s2.pos > s.bytes.len() {
            acc
        } else {
            match r {
                Some((_, Instruction::JpImm(None, target))) => last_jump(s2, Some(target)),
                Some(_) => last_jump(s2, acc),
                None => acc,
            }
        }
    }
}

/// The stream of the four entrypoint bytes of a ROM image, at address 0x100.
pub open spec fn entrypoint_stream(data: Seq<u8>) -> IterState {
    IterState { bytes: data.subrange(0x100, 0x104), pos: 0, address: 0x100 }
}

/// The header of the ROM image can be read: it is present, with a valid title.
pub open spec fn header_ok(data: Seq<u8>) -> bool {
    data.len() >= 0x150 && valid_utf8(title_bytes(data))
}

/// The ROM images that `disassemble` accepts without failing: the header can be read, the
/// entrypoint decodes to its end, and the target of its jump is within the image.
pub open spec fn disassembly_ok(data: Seq<u8>) -> bool {
    &&& rom_size_code_ok(data)
    &&& data.len() < usize::MAX
    &&& header_ok(data) ==> stream_fits(entrypoint_stream(data))
    &&& header_ok(data) ==> (last_jump(entrypoint_stream(data), None) matches Some(e) ==> e
        <= data.len())
}

/// The disassembler of a ROM image
pub struct Disassembler<'a> {
    data: &'a [u8],
}

impl<'a> Disassembler<'a> {
    /// A disassembler of the ROM image `data`
    pub fn new(data: &'a [u8]) -> (r: Self)
        ensures
            r.data() == data@,
    {
        Self { data }
    }

    /// The ROM image
    pub closed spec fn data(&self) -> Seq<u8> {
        self.data@
    }

    /// The header of the ROM
    pub fn header(&'a self) -> (r: Result<CartridgeHeader<'a>, Error>)
        requires
            rom_size_code_ok(self.data()),
        ensures
            match r {
                Ok(h) => header_result_ok(Ok(h), self.data()),
                Err(Error::CartridgeError(e)) => header_result_ok(Err(e), self.data()),
                Err(Error::NoEntrypoint) => false,
            },
    {
        match CartridgeHeader::try_new(self.data) {
            Ok(h) => Ok(h),
            Err(e) => Err(Error::CartridgeError(e)),
        }
    }

    /// The instructions of the entrypoint of the ROM, at address 0x100
    pub fn entrypoint(&'a self) -> (r: Result<InstructionIter<'a>, Error>)
        requires
            rom_size_code_ok(self.data()),
        ensures
            match r {
                Ok(it) => self.data().len() >= 0x150 && it@ == entrypoint_stream(self.data()),
                Err(Error::CartridgeError(e)) => header_result_ok(Err(e), self.data()),
                Err(Error::NoEntrypoint) => false,
            },
    {
        let header = self.header()?;
        let r = InstructionIter::new(header.entrypoint, 0x100);
        Ok(r)
    }

    /// Whether `disassemble` accepts the ROM image (see `disassembly_ok`)
    pub fn can_disassemble(&self) -> (r: bool)
        ensures
            r == disassembly_ok(self.data()),
    {
        if self.data.len() == usize::MAX {
            return false;
        }
        if self.data.len() < 0x150 || !title_is_valid(self.data) {
            return true;
        }
        if self.data[0x148] as u32 >= usize::BITS {
            return false;
        }
        let mut iter = InstructionIter::new(vstd::slice::slice_subrange(self.data, 0x100, 0x104), 0x100);
        let ghost s0 = iter@;
        assert(s0 == entrypoint_stream(self.data()));
        let mut entrypoint: Option<u16> = None;
        loop
            invariant
                stream_fits(iter@) == stream_fits(s0),
                last_jump(iter@, entrypoint) == last_jump(s0, None),
                iter@.bytes == s0.bytes,
                s0 == entrypoint_stream(self.data()),
                header_ok(self.data()),
                self.data()[0x148] < usize::BITS,
                self.data().len() < usize::MAX,
            ensures
                iter@.pos >= iter@.bytes.len(),
                stream_fits(iter@) == stream_fits(s0),
                last_jump(iter@, entrypoint) == last_jump(s0, None),
                s0 == entrypoint_stream(self.data()),
            decreases iter@.bytes.len() - iter@.pos,
        {
            if !iter.next_fits() {
                return false;
            }
            let ghost before = iter@;
            proof {
                use_type_invariant(&iter);
                if spec_next(before).1 is Some {
                    lemma_next_progress(before);
                }
                lemma_next_end(before);
            }
            match iter.next() {
                Some((_, Instruction::JpImm(None, imm))) => {
                    entrypoint = Some(imm);
                },
                Some(_) => {},
                None => {
                    break ;
                },
            }
        }
        match entrypoint {
            Some(e) => e as usize <= self.data.len(),
            None => true,
        }
    }

    /// The instructions of the ROM from the target of the jump of its entrypoint, with their
    /// addresses
    pub fn disassemble(&self) -> (r: Result<InstructionIter<'a>, Error>)
        requires
            disassembly_ok(self.data()),
        ensures
            !header_ok(self.data()) ==> (r matches Err(Error::CartridgeError(e)) && header_result_ok(
                Err(e),
                self.data(),
            )),
            header_ok(self.data()) ==> match last_jump(entrypoint_stream(self.data()), None) {
                None => r == Err::<InstructionIter, Error>(Error::NoEntrypoint),
                Some(e) => r matches Ok(it) && it@ == (IterState {
                    bytes: self.data().subrange(e as int, self.data().len() as int),
                    pos: 0,
                    address: e as usize,
                }),
            },
    {
        let header = match CartridgeHeader::try_new(self.data) {
            Ok(h) => h,
            Err(e) => {
                return Err(Error::CartridgeError(e));
            },
        };
        let mut iter = InstructionIter::new(header.entrypoint, 0x100);
        let ghost s0 = iter@;
        assert(s0 == entrypoint_stream(self.data()));
        let mut entrypoint: Option<u16> = None;
        loop
            invariant
                stream_fits(iter@),
                last_jump(iter@, entrypoint) == last_jump(s0, None),
                iter@.bytes == s0.bytes,
                s0 == entrypoint_stream(self.data()),
                header_ok(self.data()),
                disassembly_ok(self.data()),
            ensures
                iter@.pos >= iter@.bytes.len(),
                last_jump(iter@, entrypoint) == last_jump(s0, None),
                s0 == entrypoint_stream(self.data()),
                header_ok(self.data()),
                disassembly_ok(self.data()),
            decreases iter@.bytes.len() - iter@.pos,
        {
            let ghost before = iter@;
            proof {
                use_type_invariant(&iter);
                if spec_next(before).1 is Some {
                    lemma_next_progress(before);
                }
                lemma_next_end(before);
            }
            match iter.next() {
                Some((_, Instruction::JpImm(None, imm))) => {
                    entrypoint = Some(imm);
                },
                Some(_) => {},
                None => {
                    break ;
                },
            }
        }
        let entrypoint = match entrypoint {
            Some(e) => e,
            None => {
                return Err(Error::NoEntrypoint);
            },
        };
        Ok(
            InstructionIter::new(
                vstd::slice::slice_subrange(self.data, entrypoint as usize, self.data.len()),
                entrypoint as usize,
            ),
        )
    }
}

/// The instruction at address `addr` of the memory, read from its four bytes there
pub fn disassemble_single_inst(memory: &GbAddressSpace, addr: Address) -> (r: Instruction)
    requires
        gb_wf(memory@),
    ensures
        spec_next(
            IterState {
                bytes: seq![
                    gb_read(memory@, addr),
                    gb_read(memory@, addr.wrapping_add(1)),
                    gb_read(memory@, addr.wrapping_add(2)),
                    gb_read(memory@, addr.wrapping_add(3)),
                ],
                pos: 0,
                address: addr as usize,
            },
        ).1 == Some((addr as usize, r)),
{
    // An instruction is at most 3 bytes
    let data = [
        memory.read(addr),
        memory.read(addr.wrapping_add(1)),
        memory.read(addr.wrapping_add(2)),
        memory.read(addr.wrapping_add(3)),
    ];
    let mut iter = InstructionIter::new(data.as_slice(), addr as usize);
    proof {
        lemma_four_bytes_fit(data@, addr as usize);
    }
    match iter.next() {
        Some((_, insn)) => insn,
        None => Instruction::Illegal,
    }
}

/// The text of a register.
pub open spec fn register_text(v: Register) -> Seq<char> {
    match v {
        Register::A => "A"@,
        Register::B => "B"@,
        Register::C => "C"@,
        Register::D => "D"@,
        Register::E => "E"@,
        Register::H => "H"@,
        Register::L => "L"@,
    }
}

fn reg_to_repr(v: Register) -> (r: &'static str)
    ensures
        r@ == register_text(v),
{
    match v {
        Register::A => "A",
        Register::B => "B",
        Register::C => "C",
        Register::D => "D",
        Register::E => "E",
        Register::H => "H",
        Register::L => "L",
    }
}

/// The text of a register_pair.
pub open spec fn register_pair_text(v: RegisterPairs) -> Seq<char> {
    match v {
        RegisterPairs::BC => "BC"@,
        RegisterPairs::DE => "DE"@,
        RegisterPairs::HL => "HL"@,
        RegisterPairs::SP => "SP"@,
        RegisterPairs::HLINC => "HL+"@,
        RegisterPairs::HLDEC => "HL-"@,
        RegisterPairs::AF => "AF"@,
    }
}

fn reg_pair_to_repr(v: RegisterPairs) -> (r: &'static str)
    ensures
        r@ == register_pair_text(v),
{
    match v {
        RegisterPairs::BC => "BC",
        RegisterPairs::DE => "DE",
        RegisterPairs::HL => "HL",
        RegisterPairs::SP => "SP",
        RegisterPairs::HLINC => "HL+",
        RegisterPairs::HLDEC => "HL-",
        RegisterPairs::AF => "AF",
    }
}

/// The text of a condition.
pub open spec fn condition_text(v: Condition) -> Seq<char> {
    match v {
        Condition::Z => "Z"@,
        Condition::NZ => "NZ"@,
        Condition::C => "C"@,
        Condition::NC => "NC"@,
    }
}

fn cond_to_repr(v: Condition) -> (r: &'static str)
    ensures
        r@ == condition_text(v),
{
    match v {
        Condition::Z => "Z",
        Condition::NZ => "NZ",
        Condition::C => "C",
        Condition::NC => "NC",
    }
}

/// The text of a reset_target.
pub open spec fn reset_target_text(v: ResetTarget) -> Seq<char> {
    match v {
        ResetTarget::Addr0x00 => "0x00"@,
        ResetTarget::Addr0x08 => "0x08"@,
        ResetTarget::Addr0x10 => "0x10"@,
        ResetTarget::Addr0x18 => "0x18"@,
        ResetTarget::Addr0x20 => "0x20"@,
        ResetTarget::Addr0x28 => "0x28"@,
        ResetTarget::Addr0x30 => "0x30"@,
        ResetTarget::Addr0x38 => "0x38"@,
    }
}

fn reset_target_to_repr(v: ResetTarget) -> (r: &'static str)
    ensures
        r@ == reset_target_text(v),
{
    match v {
        ResetTarget::Addr0x00 => "0x00",
        ResetTarget::Addr0x08 => "0x08",
        ResetTarget::Addr0x10 => "0x10",
        ResetTarget::Addr0x18 => "0x18",
        ResetTarget::Addr0x20 => "0x20",
        ResetTarget::Addr0x28 => "0x28",
        ResetTarget::Addr0x30 => "0x30",
        ResetTarget::Addr0x38 => "0x38",
    }
}

/// The text of a bit.
pub open spec fn bit_text(v: Bit) -> Seq<char> {
    match v {
        Bit::Bit0 => "0"@,
        Bit::Bit1 => "1"@,
        Bit::Bit2 => "2"@,
        Bit::Bit3 => "3"@,
        Bit::Bit4 => "4"@,
        Bit::Bit5 => "5"@,
        Bit::Bit6 => "6"@,
        Bit::Bit7 => "7"@,
    }
}

fn bit_to_repr(v: Bit) -> (r: &'static str)
    ensures
        r@ == bit_text(v),
{
    match v {
        Bit::Bit0 => "0",
        Bit::Bit1 => "1",
        Bit::Bit2 => "2",
        Bit::Bit3 => "3",
        Bit::Bit4 => "4",
        Bit::Bit5 => "5",
        Bit::Bit6 => "6",
        Bit::Bit7 => "7",
    }
}

/// The text of the hexadecimal digit `d` (0 to 15), in lower case.
pub open spec fn hex_digit(d: nat) -> Seq<char> {
    if d == 0 {
        "0"@
    } else if d == 1 {
        "1"@
    } else if d == 2 {
        "2"@
    } else if d == 3 {
        "3"@
    } else if d == 4 {
        "4"@
    } else if d == 5 {
        "5"@
    } else if d == 6 {
        "6"@
    } else if d == 7 {
        "7"@
    } else if d == 8 {
        "8"@
    } else if d == 9 {
        "9"@
    } else if d == 10 {
        "a"@
    } else if d == 11 {
        "b"@
    } else if d == 12 {
        "c"@
    } else if d == 13 {
        "d"@
    } else if d == 14 {
        "e"@
    } else {
        "f"@
    }
}

/// The hexadecimal digits of `n`, without leading zeros.
pub open spec fn hex_text(n: nat) -> Seq<char>
    decreases n,
{
    if n < 16 {
        hex_digit(n)
    } else {
        hex_text(n / 16) + hex_digit(n % 16)
    }
}

/// The decimal digits of `n`, without leading zeros.
pub open spec fn dec_text(n: nat) -> Seq<char>
    decreases n,
{
    if n < 10 {
        hex_digit(n)
    } else {
        dec_text(n / 10) + hex_digit(n % 10)
    }
}

/// `n` in hexadecimal, after `0x`.
pub open spec fn hex_prefixed(n: nat) -> Seq<char> {
    "0x"@ + hex_text(n)
}

/// A signed byte in decimal.
pub open spec fn i8_text(v: i8) -> Seq<char> {
    if v < 0 {
        "-"@ + dec_text((-v) as nat)
    } else {
        dec_text(v as nat)
    }
}

fn digit_str(d: u32) -> (r: &'static str)
    requires
        d < 16,
    ensures
        r@ == hex_digit(d as nat),
{
    match d {
        0 => "0",
        1 => "1",
        2 => "2",
        3 => "3",
        4 => "4",
        5 => "5",
        6 => "6",
        7 => "7",
        8 => "8",
        9 => "9",
        10 => "a",
        11 => "b",
        12 => "c",
        13 => "d",
        14 => "e",
        _ => "f",
    }
}

fn push_hex(s: &mut String, n: u32)
    ensures
        final(s)@ == old(s)@ + hex_text(n as nat),
    decreases n,
{
    if n >= 16 {
        push_hex(s, n / 16);
    }
    s.append(digit_str(n % 16));
    assert(n >= 16 ==> hex_text(n as nat) == hex_text((n / 16) as nat) + hex_digit((n % 16) as nat));
}

pub(crate) fn push_dec(s: &mut String, n: u32)
    ensures
        final(s)@ == old(s)@ + dec_text(n as nat),
    decreases n,
{
    if n >= 10 {
        push_dec(s, n / 10);
    }
    s.append(digit_str(n % 10));
    assert(n >= 10 ==> dec_text(n as nat) == dec_text((n / 10) as nat) + hex_digit((n % 10) as nat));
}

fn push_hex_prefixed(s: &mut String, n: u32)
    ensures
        final(s)@ == old(s)@ + hex_prefixed(n as nat),
{
    s.append("0x");
    push_hex(s, n);
    assert(old(s)@ + "0x"@ + hex_text(n as nat) =~= old(s)@ + hex_prefixed(n as nat));
}

fn push_i8(s: &mut String, v: i8)
    ensures
        final(s)@ == old(s)@ + i8_text(v),
{
    if v < 0 {
        s.append("-");
        let m: u32 = if v == -128 {
            128
        } else {
            (-v) as u32
        };
        push_dec(s, m);
        assert(old(s)@ + "-"@ + dec_text(m as nat) =~= old(s)@ + i8_text(v));
    } else {
        push_dec(s, v as u32);
    }
}

/// The text of an operand.
pub open spec fn operand_text(m: AddressingMode) -> Seq<char> {
    match m {
        AddressingMode::IndirectRegister(rp) => "["@ + register_pair_text(rp) + "]"@,
        AddressingMode::IndirectZeroPageRegister(r) => "[0xFF00 + "@ + register_text(r) + "]"@,
        AddressingMode::IndirectImmediate(imm) => "["@ + hex_prefixed(imm as nat) + "]"@,
        AddressingMode::IndirectZeroPageImmediate(imm) => "[0xFF00 + "@ + hex_prefixed(imm as nat)
            + "]"@,
        AddressingMode::Register(r) => register_text(r),
        AddressingMode::RegisterPair(rp) => register_pair_text(rp),
        AddressingMode::Immediate(imm) => hex_prefixed(imm as nat),
        AddressingMode::Immediate16(imm) => hex_prefixed(imm as nat),
    }
}

fn push_operand(s: &mut String, mode: &AddressingMode)
    ensures
        final(s)@ == old(s)@ + operand_text(*mode),
{
    let ghost s0 = s@;
    match mode {
        AddressingMode::IndirectRegister(reg) => {
            s.append("[");
            s.append(reg_pair_to_repr(*reg));
            s.append("]");
            assert(s@ =~= s0 + operand_text(*mode));
        },
        AddressingMode::IndirectZeroPageRegister(reg) => {
            s.append("[0xFF00 + ");
            s.append(reg_to_repr(*reg));
            s.append("]");
            assert(s@ =~= s0 + operand_text(*mode));
        },
        AddressingMode::IndirectImmediate(imm) => {
            s.append("[");
            push_hex_prefixed(s, *imm as u32);
            s.append("]");
            assert(s@ =~= s0 + operand_text(*mode));
        },
        AddressingMode::IndirectZeroPageImmediate(imm) => {
            s.append("[0xFF00 + ");
            push_hex_prefixed(s, *imm as u32);
            s.append("]");
            assert(s@ =~= s0 + operand_text(*mode));
        },
        AddressingMode::Register(reg) => {
            s.append(reg_to_repr(*reg));
        },
        AddressingMode::RegisterPair(reg) => {
            s.append(reg_pair_to_repr(*reg));
        },
        AddressingMode::Immediate(imm) => {
            push_hex_prefixed(s, *imm as u32);
        },
        AddressingMode::Immediate16(imm) => {
            push_hex_prefixed(s, *imm as u32);
        },
    }
}

/// The text of a binary instruction: the mnemonic, the destination, a space and the source.
pub open spec fn binary_text(mnemonic: Seq<char>, d: AddressingMode, src: AddressingMode) -> Seq<char> {
    mnemonic + operand_text(d) + " "@ + operand_text(src)
}

/// The text of an instruction: its mnemonic and operands, with the registers in upper case,
/// the addresses and unsigned immediates in hexadecimal after `0x`, and the relative jumps and
/// SP offsets as signed decimals (but `add SP`, whose offset is written as its byte in
/// hexadecimal).
pub open spec fn instruction_text(i: Instruction) -> Seq<char> {
    match i {
        Instruction::Ld8(d, src) => binary_text("ld "@, d, src),
        Instruction::Ld16(d, src) => binary_text("ld "@, d, src),
        Instruction::Add8(d, src) => binary_text("add "@, d, src),
        Instruction::Add16(d, src) => binary_text("add "@, d, src),
        Instruction::Sub8(d, src) => binary_text("sub "@, d, src),
        Instruction::And8(d, src) => binary_text("and "@, d, src),
        Instruction::Or8(d, src) => binary_text("or "@, d, src),
        Instruction::Adc8(d, src) => binary_text("adc "@, d, src),
        Instruction::Sbc8(d, src) => binary_text("sbc "@, d, src),
        Instruction::Xor8(d, src) => binary_text("xor "@, d, src),
        Instruction::Cp8(d, src) => binary_text("cp "@, d, src),
        Instruction::Inc8(mode) => "inc "@ + operand_text(mode),
        Instruction::Inc16(mode) => "inc "@ + operand_text(mode),
        Instruction::Dec8(mode) => "dec "@ + operand_text(mode),
        Instruction::Dec16(mode) => "dec "@ + operand_text(mode),
        Instruction::Rlc(mode) => "rlc "@ + operand_text(mode),
        Instruction::Rrc(mode) => "rrc "@ + operand_text(mode),
        Instruction::Rl(mode) => "rl "@ + operand_text(mode),
        Instruction::Rr(mode) => "rr "@ + operand_text(mode),
        Instruction::Sla(mode) => "sla "@ + operand_text(mode),
        Instruction::Sra(mode) => "sra "@ + operand_text(mode),
        Instruction::Swap(mode) => "swap "@ + operand_text(mode),
        Instruction::Srl(mode) => "srl "@ + operand_text(mode),
        Instruction::Bit(b, mode) => "bit "@ + bit_text(b) + ", "@ + operand_text(mode),
        Instruction::Res(b, mode) => "res "@ + bit_text(b) + ", "@ + operand_text(mode),
        Instruction::SetBit(b, mode) => "set "@ + bit_text(b) + ", "@ + operand_text(mode),
        Instruction::Halt => "halt"@,
        Instruction::Nop => "nop"@,
        Instruction::Daa => "daa"@,
        Instruction::Cpl => "cpl"@,
        Instruction::Scf => "scf"@,
        Instruction::Ccf => "ccf"@,
        Instruction::Stop => "stop"@,
        Instruction::Reti => "reti"@,
        Instruction::JpHl => "jp HL"@,
        Instruction::Di => "di"@,
        Instruction::Ei => "ei"@,
        Instruction::Illegal => "unk"@,
        Instruction::Rlca => "rlca"@,
        Instruction::Rrca => "rrca"@,
        Instruction::Rla => "rla"@,
        Instruction::Rra => "rra"@,
        Instruction::Ld16HlSpImm(imm) => "ld HL, SP + "@ + i8_text(imm),
        Instruction::JrImm(Some(c), imm) => "jr "@ + condition_text(c) + ", PC + "@ + i8_text(imm),
        Instruction::JrImm(None, imm) => "jr PC + "@ + i8_text(imm),
        Instruction::Ret(Some(c)) => "ret "@ + condition_text(c),
        Instruction::Ret(None) => "ret "@,
        Instruction::JpImm(Some(c), imm) => "jp "@ + condition_text(c) + ", "@ + hex_prefixed(imm as nat),
        Instruction::JpImm(None, imm) => "jp "@ + hex_prefixed(imm as nat),
        Instruction::CallImm(Some(c), imm) => "call "@ + condition_text(c) + ", "@ + hex_prefixed(imm as nat),
        Instruction::CallImm(None, imm) => "call "@ + hex_prefixed(imm as nat),
        Instruction::Reset(t) => "rst "@ + reset_target_text(t),
        Instruction::Pop(rp) => "pop "@ + register_pair_text(rp),
        Instruction::Push(rp) => "push "@ + register_pair_text(rp),
        Instruction::AddSpImm(imm) => "add SP, "@ + hex_prefixed((imm as u8) as nat),
    }
}

fn push_binary(s: &mut String, mnemonic: &str, dest: &AddressingMode, src: &AddressingMode)
    ensures
        final(s)@ == old(s)@ + binary_text(mnemonic@, *dest, *src),
{
    let ghost s0 = s@;
    s.append(mnemonic);
    push_operand(s, dest);
    s.append(" ");
    push_operand(s, src);
    assert(s@ =~= s0 + binary_text(mnemonic@, *dest, *src));
}

fn push_unary(s: &mut String, mnemonic: &str, mode: &AddressingMode)
    ensures
        final(s)@ == old(s)@ + (mnemonic@ + operand_text(*mode)),
{
    let ghost s0 = s@;
    s.append(mnemonic);
    push_operand(s, mode);
    assert(s@ =~= s0 + (mnemonic@ + operand_text(*mode)));
}

fn push_bit_op(s: &mut String, mnemonic: &str, bit: Bit, mode: &AddressingMode)
    ensures
        final(s)@ == old(s)@ + (mnemonic@ + bit_text(bit) + ", "@ + operand_text(*mode)),
{
    let ghost s0 = s@;
    s.append(mnemonic);
    s.append(bit_to_repr(bit));
    s.append(", ");
    push_operand(s, mode);
    assert(s@ =~= s0 + (mnemonic@ + bit_text(bit) + ", "@ + operand_text(*mode)));
}

fn u8_of_i8(v: i8) -> (r: u8)
    ensures
        r == v as u8,
{
    v as u8
}

impl Instruction {
    /// The text of the instruction (see `instruction_text`)
    #[verifier::rlimit(40)]
    pub fn to_string(&self) -> (r: String)
        ensures
            r@ == instruction_text(*self),
    {
        let mut s = String::new();
        match self {
            Instruction::Ld8(dest, src) => push_binary(&mut s, "ld ", dest, src),
            Instruction::Ld16(dest, src) => push_binary(&mut s, "ld ", dest, src),
            Instruction::Add8(dest, src) => push_binary(&mut s, "add ", dest, src),
            Instruction::Add16(dest, src) => push_binary(&mut s, "add ", dest, src),
            Instruction::Sub8(dest, src) => push_binary(&mut s, "sub ", dest, src),
            Instruction::And8(dest, src) => push_binary(&mut s, "and ", dest, src),
            Instruction::Or8(dest, src) => push_binary(&mut s, "or ", dest, src),
            Instruction::Adc8(dest, src) => push_binary(&mut s, "adc ", dest, src),
            Instruction::Sbc8(dest, src) => push_binary(&mut s, "sbc ", dest, src),
            Instruction::Xor8(dest, src) => push_binary(&mut s, "xor ", dest, src),
            Instruction::Cp8(dest, src) => push_binary(&mut s, "cp ", dest, src),
            Instruction::Inc8(mode) => push_unary(&mut s, "inc ", mode),
            Instruction::Inc16(mode) => push_unary(&mut s, "inc ", mode),
            Instruction::Dec8(mode) => push_unary(&mut s, "dec ", mode),
            Instruction::Dec16(mode) => push_unary(&mut s, "dec ", mode),
            Instruction::Rlc(mode) => push_unary(&mut s, "rlc ", mode),
            Instruction::Rrc(mode) => push_unary(&mut s, "rrc ", mode),
            Instruction::Rl(mode) => push_unary(&mut s, "rl ", mode),
            Instruction::Rr(mode) => push_unary(&mut s, "rr ", mode),
            Instruction::Sla(mode) => push_unary(&mut s, "sla ", mode),
            Instruction::Sra(mode) => push_unary(&mut s, "sra ", mode),
            Instruction::Swap(mode) => push_unary(&mut s, "swap ", mode),
            Instruction::Srl(mode) => push_unary(&mut s, "srl ", mode),
            Instruction::Bit(bit, mode) => push_bit_op(&mut s, "bit ", *bit, mode),
            Instruction::Res(bit, mode) => push_bit_op(&mut s, "res ", *bit, mode),
            Instruction::SetBit(bit, mode) => push_bit_op(&mut s, "set ", *bit, mode),
            Instruction::Halt => s.append("halt"),
            Instruction::Nop => s.append("nop"),
            Instruction::Daa => s.append("daa"),
            Instruction::Cpl => s.append("cpl"),
            Instruction::Scf => s.append("scf"),
            Instruction::Ccf => s.append("ccf"),
            Instruction::Stop => s.append("stop"),
            Instruction::Reti => s.append("reti"),
            Instruction::JpHl => s.append("jp HL"),
            Instruction::Di => s.append("di"),
            Instruction::Ei => s.append("ei"),
            Instruction::Illegal => s.append("unk"),
            Instruction::Rlca => s.append("rlca"),
            Instruction::Rrca => s.append("rrca"),
            Instruction::Rla => s.append("rla"),
            Instruction::Rra => s.append("rra"),
            Instruction::Ld16HlSpImm(imm) => {
                s.append("ld HL, SP + ");
                push_i8(&mut s, *imm);
            },
            Instruction::JrImm(condition, imm) => {
                if let Some(cond) = condition {
                    s.append("jr ");
                    s.append(cond_to_repr(*cond));
                    s.append(", PC + ");
                    push_i8(&mut s, *imm);
                } else {
                    s.append("jr PC + ");
                    push_i8(&mut s, *imm);
                }
            },
            Instruction::Ret(cond) => {
                if let Some(cond) = cond {
                    s.append("ret ");
                    s.append(cond_to_repr(*cond));
                } else {
                    s.append("ret ");
                }
            },
            Instruction::JpImm(cond, imm) => {
                if let Some(cond) = cond {
                    s.append("jp ");
                    s.append(cond_to_repr(*cond));
                    s.append(", ");
                    push_hex_prefixed(&mut s, *imm as u32);
                } else {
                    s.append("jp ");
                    push_hex_prefixed(&mut s, *imm as u32);
                }
            },
            Instruction::CallImm(cond, imm) => {
                if let Some(cond) = cond {
                    s.append("call ");
                    s.append(cond_to_repr(*cond));
                    s.append(", ");
                    push_hex_prefixed(&mut s, *imm as u32);
                } else {
                    s.append("call ");
                    push_hex_prefixed(&mut s, *imm as u32);
                }
            },
            Instruction::Reset(target) => {
                s.append("rst ");
                s.append(reset_target_to_repr(*target));
            },
            Instruction::Pop(reg) => {
                s.append("pop ");
                s.append(reg_pair_to_repr(*reg));
            },
            Instruction::Push(reg) => {
                s.append("push ");
                s.append(reg_pair_to_repr(*reg));
            },
            Instruction::AddSpImm(imm) => {
                s.append("add SP, ");
                push_hex_prefixed(&mut s, u8_of_i8(*imm) as u32);
            },
        }
        assert(s@ =~= instruction_text(*self));
        s
    }
}

} // verus!
