use rusty_boy::address_space::GbAddressSpace;
use rusty_boy::alu::Cycles;
use rusty_boy::cartridge::{Cartridge, Error};
use rusty_boy::disassembler::{disassemble_single_inst, Instruction};
use rusty_boy::cpu::{Cpu, ExitReason};
use rusty_boy::emulator::{IllegalOpcode, RustyBoy};
use rusty_boy::interrupts::Interrupts;
use rusty_boy::joypad::State;
use rusty_boy::mappers::new_mapper;
use rusty_boy::memory::Memory;
use rusty_boy::ppu::dma::DmaEngine;
use rusty_boy::ppu::Color;

fn make_rom(cartridge_type: u8, ram_code: u8, entrypoint: &[u8], code_at_0x150: &[u8]) -> Vec<u8> {
    let mut data = vec![0u8; 0x8000];
    for (i, b) in b"EMU".iter().enumerate() {
        data[0x134 + i] = *b;
    }
    data[0x147] = cartridge_type;
    data[0x149] = ram_code;
    for (i, b) in entrypoint.iter().enumerate() {
        data[0x100 + i] = *b;
    }
    for (i, b) in code_at_0x150.iter().enumerate() {
        data[0x150 + i] = *b;
    }
    data
}

fn cartridge(data: Vec<u8>) -> Cartridge {
    new_mapper(data).unwrap()
}

#[test]
fn runs_frames_of_a_busy_loop() {
    // jp 0x150; at 0x150: jr -2
    let rom = make_rom(0x00, 0, &[0xC3, 0x50, 0x01], &[0x18, 0xFE]);
    let mut rb = RustyBoy::new_with_cartridge(cartridge(rom));
    for _ in 0..3 {
        let frame = rb.run_until_next_frame(true).unwrap();
        assert_eq!(frame.len(), 144);
        assert_eq!(frame[0].len(), 160);
    }
    rb.configure_cpu_step(Cycles::new(60));
    assert!(rb.run_until_next_frame(false).is_ok());
}

#[test]
fn illegal_opcode_is_reported() {
    let rom = make_rom(0x00, 0, &[0xD3], &[]);
    let mut rb = RustyBoy::new_with_cartridge(cartridge(rom));
    assert_eq!(rb.run_until_next_frame(true).err(), Some(IllegalOpcode(0x101)));
}

#[test]
fn frames_of_the_lcd() {
    // The LCD is off at power on: the frame keeps its initial black
    let rom = make_rom(0x00, 0, &[0xC3, 0x50, 0x01], &[0x18, 0xFE]);
    let mut rb = RustyBoy::new_with_cartridge(cartridge(rom));
    let frame = rb.run_until_next_frame(true).unwrap();
    assert!(frame.iter().all(|l| l.iter().all(|c| *c == Color::Black)));

    // ld A, 0x81; ldh [0x40], A (LCD and background on); then loop forever. With the
    // background palette at 0 every pixel is white.
    let rom = make_rom(0x00, 0, &[0xC3, 0x50, 0x01], &[0x3E, 0x81, 0xE0, 0x40, 0x18, 0xFE]);
    let mut rb = RustyBoy::new_with_cartridge(cartridge(rom));
    for _ in 0..2 {
        assert!(rb.run_until_next_frame(true).is_ok());
    }
    let frame = rb.run_until_next_frame(true).unwrap();
    assert!(frame.iter().all(|l| l.iter().all(|c| *c == Color::White)));
}

#[test]
fn battery_ram_save_and_restore() {
    let rom = make_rom(0x1B, 2, &[0xC3, 0x50, 0x01], &[0x18, 0xFE]);
    let mut rb = RustyBoy::new_with_cartridge(cartridge(rom));
    assert!(rb.supports_battery_backed_ram());
    assert_eq!(rb.get_cartridge_ram().unwrap().len(), 8 * 1024);
    let saved = vec![0x5Au8; 8 * 1024];
    assert_eq!(rb.restore_cartridge_ram(&saved), Ok(()));
    assert_eq!(rb.get_cartridge_ram().unwrap(), &saved[..]);
    assert_eq!(
        rb.restore_cartridge_ram(&[1, 2, 3]),
        Err(Error::UnexpectedRamSize { expected: 8 * 1024, actual: 3 })
    );

    let rom = make_rom(0x00, 0, &[0xC3, 0x50, 0x01], &[0x18, 0xFE]);
    let mut rb = RustyBoy::new_with_cartridge(cartridge(rom));
    assert!(!rb.supports_battery_backed_ram());
    assert!(rb.get_cartridge_ram().is_none());
    assert_eq!(rb.restore_cartridge_ram(&[0]), Err(Error::CartridgeHasNoRam));
}

#[test]
fn keys_reach_the_joypad_register() {
    let rom = make_rom(0x00, 0, &[0xC3, 0x50, 0x01], &[0x18, 0xFE]);
    let mut rb = RustyBoy::new_with_cartridge(cartridge(rom));
    let mut state = State::new();
    state.a = true;
    state.down = true;
    rb.update_keys(&state);
    rb.enable_debug();
    assert!(rb.run_until_next_frame(false).is_ok());
}

#[test]
fn address_space_memories() {
    let rom = make_rom(0x00, 0, &[0xC3, 0x50, 0x01], &[0x18, 0xFE]);
    let mut mem = GbAddressSpace::new(cartridge(rom));
    // Work RAM and its mirror
    mem.write(0xC010, 0x12);
    assert_eq!(mem.read(0xC010), 0x12);
    assert_eq!(mem.read(0xE010), 0x12);
    mem.write(0xE020, 0x34);
    assert_eq!(mem.read(0xC020), 0x34);
    // High RAM
    mem.write(0xFF80, 0x56);
    mem.write(0xFFFE, 0x78);
    assert_eq!(mem.read(0xFF80), 0x56);
    assert_eq!(mem.read(0xFFFE), 0x78);
    // The ROM is read only
    assert_eq!(mem.read(0x0100), 0xC3);
    mem.write(0x0100, 0x00);
    assert_eq!(mem.read(0x0100), 0xC3);
    // Video RAM and object attribute memory
    mem.write(0x8000, 0x42);
    mem.write(0x9FFF, 0x43);
    assert_eq!(mem.read(0x8000), 0x42);
    assert_eq!(mem.read(0x9FFF), 0x43);
    for (i, a) in (0xFE00u16..0xFE04).enumerate() {
        mem.write(a, 0x50 + i as u8);
    }
    for (i, a) in (0xFE00u16..0xFE04).enumerate() {
        assert_eq!(mem.read(a), 0x50 + i as u8);
    }
    // Serial control keeps its low 7 bits
    mem.write(0xFF02, 0xFF);
    assert_eq!(mem.read(0xFF02), 0x7F);
    mem.write(0xFF01, 0xAB);
    assert_eq!(mem.read(0xFF01), 0xAB);
    // Interrupt registers keep the bits of all interrupts
    mem.write(0xFFFF, 0xFF);
    assert_eq!(mem.read(0xFFFF), 0x1F);
    mem.write(0xFF0F, 0x01);
    assert_eq!(mem.read(0xFF0F), 0x01);
    // Unused registers read 0
    assert_eq!(mem.read(0xFF03), 0);
    assert_eq!(mem.read(0xFEA0), 0);
    // The joypad with no group selected
    assert_eq!(mem.read(0xFF00), 0x3F);
    // Reset clears the RAMs
    mem.reset();
    assert_eq!(mem.read(0xC010), 0);
    assert_eq!(mem.read(0xFF80), 0);
    assert_eq!(disassemble_single_inst(&mem, 0x100), Instruction::JpImm(None, 0x150));
}

#[test]
fn mbc5_ram_through_the_bus() {
    let rom = make_rom(0x1B, 2, &[0xC3, 0x50, 0x01], &[0x18, 0xFE]);
    let mut mem = GbAddressSpace::new(cartridge(rom));
    assert_eq!(mem.read(0xA000), 0xFF);
    mem.write(0x0000, 0x0A);
    mem.write(0xA000, 0x99);
    assert_eq!(mem.read(0xA000), 0x99);
}

#[test]
fn push_then_pop_gives_back_the_word() {
    // ld SP, 0xD000; ld BC, 0x1234; push BC; pop DE
    let rom = make_rom(0x00, 0, &[0x31, 0x00, 0xD0, 0x01, 0x34, 0x12, 0xC5, 0xD1], &[]);
    let mut mem = GbAddressSpace::new(cartridge(rom));
    let mut cpu = Cpu::new();
    cpu.get_mut_regs().pc_reg = 0x100;
    for _ in 0..4 {
        assert!(matches!(cpu.step(&mut mem, Interrupts::new()), ExitReason::Step(_)));
    }
    let regs = cpu.get_regs();
    assert_eq!((regs.d_reg, regs.e_reg), (0x12, 0x34));
    assert_eq!(regs.sp_reg, 0xD000);
    assert_eq!(mem.read(0xCFFF), 0x12);
    assert_eq!(mem.read(0xCFFE), 0x34);
}

#[test]
fn dma_copies_to_the_oam() {
    let rom = make_rom(0x00, 0, &[0xC3, 0x50, 0x01], &[0x18, 0xFE]);
    let mut mem = GbAddressSpace::new(cartridge(rom));
    for i in 0..160u16 {
        mem.write(0xC100 + i, i as u8 ^ 0x5A);
    }
    let mut dma = DmaEngine::new();
    dma.trigger(0xC1);
    dma.run(Cycles::new(4 * 100), &mut mem);
    dma.run(Cycles::new(4 * 100), &mut mem);
    for i in 0..160u16 {
        assert_eq!(mem.read(0xFE00 + i), i as u8 ^ 0x5A);
    }
    // The I/O registers are left alone
    assert_eq!(mem.read(0xFF00), 0x3F);
}
