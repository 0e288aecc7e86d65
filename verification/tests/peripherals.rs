use rusty_boy::alu::Cycles;
use rusty_boy::file_rom::FileRom;
use rusty_boy::interrupts::{Interrupt, InterruptRegs, Interrupts, ALL_INTERRUPTS};
use rusty_boy::joypad::{Joypad, State};
use rusty_boy::ppu::{Color, Frame};
use rusty_boy::rom::{Error as RomError, Licensee, RamSize, Rom};
use rusty_boy::surface::{draw_surface_argb8888, draw_surface_rgb888};
use rusty_boy::theme::Theme;
use rusty_boy::timer::Timer;

#[test]
fn timer_counts_and_overflows() {
    let mut timer = Timer::new();
    assert_eq!(timer.read(0xFF04), 0);
    // DIV is the high byte of the cycle counter
    assert_eq!(timer.step(Cycles::new(256)).0, 0);
    assert_eq!(timer.read(0xFF04), 1);
    // Disabled TIMA does not count
    assert_eq!(timer.read(0xFF05), 0);
    // Enabled, every 16 cycles
    timer.write(0xFF07, 0x05);
    assert_eq!(timer.read(0xFF07), 0x05);
    timer.step(Cycles::new(16));
    assert_eq!(timer.read(0xFF05), 1);
    timer.write(0xFF06, 0x42);
    assert_eq!(timer.read(0xFF06), 0x42);
    timer.write(0xFF05, 0xFF);
    let irq = timer.step(Cycles::new(16));
    // On overflow TIMA is reloaded from TMA
    assert_eq!(timer.read(0xFF05), 0x42);
    assert_eq!(irq, Interrupts::from_interrupt(Interrupt::Timer));
    assert_eq!(timer.step(Cycles::new(16)).0, 0);
    assert_eq!(timer.read(0xFF05), 0x43);
    // A write to DIV resets the counter at the next step, which then counts again
    assert_ne!(timer.read(0xFF04), 0);
    timer.write(0xFF04, 0x99);
    timer.step(Cycles::new(300));
    assert_eq!(timer.read(0xFF04), 0);
    timer.step(Cycles::new(256));
    assert_eq!(timer.read(0xFF04), 1);
    timer.step(Cycles::new(512));
    assert_eq!(timer.read(0xFF04), 3);
}

#[test]
fn joypad_groups() {
    let mut joypad = Joypad::new();
    assert_eq!(joypad.read(0xFF00), 0x3F);
    let mut state = State::new();
    state.a = true;
    state.start = true;
    state.left = true;
    joypad.update_buttons(&state);
    // Select the buttons
    joypad.write(0xFF00, 0x10);
    assert_eq!(joypad.read(0xFF00), 0x10 | 0b0110);
    // Select the direction pad
    joypad.write(0xFF00, 0x20);
    assert_eq!(joypad.read(0xFF00), 0x20 | 0b1101);
    // Both groups
    joypad.write(0xFF00, 0x00);
    assert_eq!(joypad.read(0xFF00), 0b0110 & 0b1101);
    // None
    joypad.write(0xFF00, 0x30);
    assert_eq!(joypad.read(0xFF00), 0x3F);
}

#[test]
fn interrupt_sets() {
    let all = Interrupts::from_interrupt(Interrupt::Timer)
        .bitor(Interrupts::from_interrupt(Interrupt::Lcd));
    assert_eq!(all.0, 0x06);
    assert_eq!(all.highest_priority(), Some(Interrupt::Lcd));
    let rest = all.acknowledge(Interrupt::Lcd);
    assert_eq!(rest.0, 0x04);
    assert_eq!(rest.highest_priority(), Some(Interrupt::Timer));
    assert_eq!(Interrupts::new().highest_priority(), None);
    assert!(!Interrupts::new().has_any());
    assert!(rest.has_any());
    assert_eq!(Interrupts(0x10).highest_priority(), Some(Interrupt::Joypad));
    assert_eq!(Interrupts(0x08).highest_priority(), Some(Interrupt::Serial));
    assert_eq!(Interrupts(0x01).not().0, 0x1E);
    assert_eq!(Interrupts(0x0F).bitand(Interrupts(0x3C)).0, 0x0C);
    assert_eq!(ALL_INTERRUPTS, 0x1F);
    assert_eq!(Interrupt::Serial.mask(), 0x08);
}

#[test]
fn interrupt_registers() {
    let mut regs = InterruptRegs::new();
    regs.write(0xFFFF, 0xFF);
    assert_eq!(regs.read(0xFFFF), 0x1F);
    regs.trigger(Interrupts(0x05));
    assert_eq!(regs.read(0xFF0F), 0x05);
    assert_eq!(regs.active_interrupts().0, 0x05);
    regs.acknowledge(Interrupt::Vblank);
    assert_eq!(regs.read(0xFF0F), 0x04);
    regs.write(0xFF0F, 0x00);
    assert_eq!(regs.active_interrupts().0, 0);
}

#[test]
fn themes() {
    assert_eq!(Theme::Light.opposite(), Theme::Dark);
    assert_eq!(Theme::Dark.opposite(), Theme::Light);
    assert_eq!(Theme::Dark.opposite().opposite(), Theme::Dark);
    assert_eq!(Theme::Light.name(), "light");
    assert_eq!(Theme::Dark.name(), "dark");
    assert_eq!(Theme::from_name(&"dark".to_string()), Some(Theme::Dark));
    assert_eq!(Theme::from_name(&"light".to_string()), Some(Theme::Light));
    assert_eq!(Theme::from_name(&"blue".to_string()), None);
    for theme in [Theme::Light, Theme::Dark] {
        assert_eq!(Theme::from_name(&theme.name().to_string()), Some(theme));
    }
}

fn test_frame() -> Frame {
    let mut frame: Frame = [[Color::White; 160]; 144];
    frame[0][1] = Color::LightGrey;
    frame[0][2] = Color::DarkGrey;
    frame[0][3] = Color::Black;
    frame
}

#[test]
fn surfaces() {
    let frame = test_frame();
    let mut surface = vec![0u8; 4 * 160 * 144];
    draw_surface_argb8888(&mut surface, &frame);
    assert_eq!(&surface[0..16], &[255, 255, 255, 255, 170, 170, 170, 255, 85, 85, 85, 255, 0, 0, 0, 255]);
    assert_eq!(&surface[surface.len() - 4..], &[255, 255, 255, 255]);

    let mut surface = vec![7u8; 4 * 160 * 144];
    draw_surface_rgb888(&mut surface, &frame);
    assert_eq!(&surface[0..16], &[255, 255, 255, 7, 170, 170, 170, 7, 85, 85, 85, 7, 0, 0, 0, 7]);

    // A short surface only gets the first pixels
    let mut surface = vec![1u8; 8];
    draw_surface_argb8888(&mut surface, &frame);
    assert_eq!(surface, vec![255, 255, 255, 255, 170, 170, 170, 255]);
    let mut surface = vec![1u8; 7];
    draw_surface_rgb888(&mut surface, &frame);
    assert_eq!(surface, vec![255, 255, 255, 1, 170, 170, 170]);
}

fn make_rom(title: &[u8]) -> Vec<u8> {
    let mut data = vec![0u8; 0x8000];
    for (i, b) in title.iter().enumerate() {
        data[0x134 + i] = *b;
    }
    data[0x100] = 0x00;
    data[0x101] = 0xC3;
    data[0x102] = 0x50;
    data[0x103] = 0x01;
    data[0x148] = 1;
    data[0x149] = 3;
    data[0x14B] = 0x33;
    data[0x144] = b'0';
    data[0x145] = b'1';
    data
}

#[test]
fn rom_header() {
    let data = make_rom(b"POKEMON RED");
    let rom = Rom::new(&data);
    let header = rom.header().unwrap();
    assert_eq!(header.title, "POKEMON RED");
    assert_eq!(header.entrypoint, &[0x00, 0xC3, 0x50, 0x01]);
    assert_eq!(header.logo.len(), 0x30);
    assert_eq!(header.licensee, Licensee::New([b'0', b'1']));
    assert_eq!(header.rom_size, 0x10000);
    assert_eq!(header.ram_size, RamSize::from(3));
    assert_eq!(header.cgb_flag, Some(0));
    assert!(header.manufacturer_code.is_some());

    let short = [0u8; 0x100];
    assert_eq!(Rom::new(&short).header().err(), Some(RomError::NoHeader));
    let bad = make_rom(&[0xC0, 0x80]);
    assert_eq!(Rom::new(&bad).header().err(), Some(RomError::InvalidTitle));

    let file = FileRom::new(data.clone());
    assert_eq!(file.rom(), &data[..]);
}
