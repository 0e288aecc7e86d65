use rusty_boy::decoder::{
    decode, decode_prefixed, AddressingMode as Mode, Bit, Condition, OpCode, Register,
    RegisterPairs, ResetTarget,
};
use rusty_boy::disassembler::{
    AddressingMode, Disassembler, Error, Instruction, InstructionIter,
};

fn make_rom(entrypoint: &[u8], code_at_0x150: &[u8]) -> Vec<u8> {
    let mut data = vec![0u8; 0x8000];
    for (i, b) in b"DISASM".iter().enumerate() {
        data[0x134 + i] = *b;
    }
    for (i, b) in entrypoint.iter().enumerate() {
        data[0x100 + i] = *b;
    }
    for (i, b) in code_at_0x150.iter().enumerate() {
        data[0x150 + i] = *b;
    }
    data
}

#[test]
fn decode_main_table() {
    assert_eq!(decode(0x00), OpCode::Nop);
    assert_eq!(decode(0x76), OpCode::Halt);
    assert_eq!(decode(0xC3), OpCode::JpImm(None));
    assert_eq!(decode(0xC2), OpCode::JpImm(Some(Condition::NZ)));
    assert_eq!(decode(0xCB), OpCode::Prefix);
    assert_eq!(decode(0xD3), OpCode::Illegal);
    assert_eq!(decode(0x41), OpCode::Ld8(Mode::Register(Register::B), Mode::Register(Register::C)));
    assert_eq!(
        decode(0x3E),
        OpCode::Ld8(Mode::Register(Register::A), Mode::Immediate)
    );
    assert_eq!(
        decode(0x22),
        OpCode::Ld8(Mode::IndirectRegister(RegisterPairs::HLINC), Mode::Register(Register::A))
    );
    assert_eq!(decode(0xFF), OpCode::Reset(ResetTarget::Addr0x38));
    assert_eq!(
        decode(0x86),
        OpCode::Add8(Mode::Register(Register::A), Mode::IndirectRegister(RegisterPairs::HL))
    );
}

#[test]
fn decode_prefixed_table() {
    assert_eq!(decode_prefixed(0x7C), OpCode::Bit(Bit::Bit7, Mode::Register(Register::H)));
    assert_eq!(decode_prefixed(0x37), OpCode::Swap(Mode::Register(Register::A)));
    assert_eq!(decode_prefixed(0x00), OpCode::Rlc(Mode::Register(Register::B)));
    assert_eq!(
        decode_prefixed(0xC6),
        OpCode::SetBit(Bit::Bit0, Mode::IndirectRegister(RegisterPairs::HL))
    );
    assert_eq!(decode_prefixed(0x87), OpCode::Res(Bit::Bit0, Mode::Register(Register::A)));
}

#[test]
fn instruction_text() {
    let ld = Instruction::Ld8(AddressingMode::Register(Register::A), AddressingMode::Immediate(0x3e));
    assert_eq!(ld.to_string(), "ld A 0x3e");
    assert_eq!(Instruction::Ret(None).to_string(), "ret ");
    assert_eq!(Instruction::Ret(Some(Condition::NC)).to_string(), "ret NC");
    assert_eq!(Instruction::JpImm(None, 0x150).to_string(), "jp 0x150");
    assert_eq!(Instruction::JpImm(Some(Condition::Z), 0x10).to_string(), "jp Z, 0x10");
    assert_eq!(Instruction::JrImm(None, -2).to_string(), "jr PC + -2");
    assert_eq!(Instruction::JrImm(Some(Condition::C), 5).to_string(), "jr C, PC + 5");
    assert_eq!(Instruction::AddSpImm(-2).to_string(), "add SP, 0xfe");
    assert_eq!(Instruction::Reset(ResetTarget::Addr0x28).to_string(), "rst 0x28");
    assert_eq!(Instruction::Illegal.to_string(), "unk");
    assert_eq!(
        Instruction::Ld8(
            AddressingMode::IndirectZeroPageImmediate(0x44),
            AddressingMode::Register(Register::A)
        )
        .to_string(),
        "ld [0xFF00 + 0x44] A"
    );
    assert_eq!(
        Instruction::Ld8(
            AddressingMode::IndirectRegister(RegisterPairs::HLDEC),
            AddressingMode::Register(Register::A)
        )
        .to_string(),
        "ld [HL-] A"
    );
    assert_eq!(
        Instruction::Bit(Bit::Bit7, AddressingMode::Register(Register::H)).to_string(),
        "bit 7, H"
    );
    assert_eq!(Instruction::Push(RegisterPairs::AF).to_string(), "push AF");
    assert_eq!(
        Instruction::Ld16(
            AddressingMode::IndirectImmediate(0xC000),
            AddressingMode::RegisterPair(RegisterPairs::SP)
        )
        .to_string(),
        "ld [0xc000] SP"
    );
}

#[test]
fn instruction_stream() {
    // nop; ld A, 0x12; jp 0x0150; cb 7c (bit 7, H); ld BC, 0x1234
    let bytes = [0x00, 0x3E, 0x12, 0xC3, 0x50, 0x01, 0xCB, 0x7C, 0x01, 0x34, 0x12];
    let mut iter = InstructionIter::new(&bytes, 0x200);
    assert!(iter.next_fits());
    assert_eq!(iter.next(), Some((0x200, Instruction::Nop)));
    assert_eq!(
        iter.next(),
        Some((
            0x201,
            Instruction::Ld8(AddressingMode::Register(Register::A), AddressingMode::Immediate(0x12))
        ))
    );
    // Each address is the base plus the offset of the opcode
    assert_eq!(iter.next(), Some((0x203, Instruction::JpImm(None, 0x150))));
    assert_eq!(
        iter.next(),
        Some((0x206, Instruction::Bit(Bit::Bit7, AddressingMode::Register(Register::H))))
    );
    assert_eq!(
        iter.next(),
        Some((
            0x208,
            Instruction::Ld16(
                AddressingMode::RegisterPair(RegisterPairs::BC),
                AddressingMode::Immediate16(0x1234)
            )
        ))
    );
    assert_eq!(iter.next(), None);
}

#[test]
fn addresses_after_loads() {
    let bytes = [0x01, 0x34, 0x12, 0x00];
    let mut iter = InstructionIter::new(&bytes, 0);
    assert_eq!(
        iter.next(),
        Some((
            0,
            Instruction::Ld16(
                AddressingMode::RegisterPair(RegisterPairs::BC),
                AddressingMode::Immediate16(0x1234)
            )
        ))
    );
    assert_eq!(iter.next(), Some((3, Instruction::Nop)));
    assert_eq!(iter.next(), None);
}

#[test]
fn truncated_streams() {
    // A jump whose immediate is cut ends the stream
    let bytes = [0xC3, 0x50];
    let mut iter = InstructionIter::new(&bytes, 0);
    assert!(iter.next_fits());
    assert_eq!(iter.next(), None);
    // A load whose immediate operand is cut does not fit
    let bytes = [0x3E];
    let iter = InstructionIter::new(&bytes, 0);
    assert!(!iter.next_fits());
}

#[test]
fn disassemble_from_entrypoint_jump() {
    let rom = make_rom(&[0x00, 0xC3, 0x50, 0x01], &[0x76]);
    let d = Disassembler::new(&rom);
    assert!(d.can_disassemble());
    assert_eq!(d.header().unwrap().title, "DISASM");
    let mut entry = d.entrypoint().unwrap();
    assert_eq!(entry.next(), Some((0x100, Instruction::Nop)));
    assert_eq!(entry.next(), Some((0x101, Instruction::JpImm(None, 0x150))));
    assert_eq!(entry.next(), None);
    let mut code = d.disassemble().unwrap();
    assert_eq!(code.next(), Some((0x150, Instruction::Halt)));
}

#[test]
fn disassemble_errors() {
    let rom = make_rom(&[0x00, 0x00, 0x00, 0x00], &[]);
    let d = Disassembler::new(&rom);
    assert!(d.can_disassemble());
    assert!(matches!(d.disassemble(), Err(Error::NoEntrypoint)));
    let short = [0u8; 0x20];
    let d = Disassembler::new(&short);
    assert!(matches!(d.disassemble(), Err(Error::CartridgeError(_))));
}
