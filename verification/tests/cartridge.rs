use rusty_boy::cartridge::{Cartridge, Error};
use rusty_boy::header::{self, CartridgeHeader, CartridgeType, Licensee, RamSize};
use rusty_boy::mappers::{mapper_accepts_rom, new_mapper, power_of_two, Mapper};

fn make_rom(len: usize, cartridge_type: u8, ram_code: u8, title: &[u8]) -> Vec<u8> {
    let mut data = vec![0u8; len];
    for (i, b) in title.iter().enumerate() {
        data[0x134 + i] = *b;
    }
    data[0x147] = cartridge_type;
    data[0x149] = ram_code;
    data[0x148] = 0;
    // The entrypoint: nop; jp 0x150
    data[0x100] = 0x00;
    data[0x101] = 0xC3;
    data[0x102] = 0x50;
    data[0x103] = 0x01;
    for i in 0..len {
        if i >= 0x150 {
            data[i] = (i / 0x4000) as u8;
        }
    }
    data
}

#[test]
fn header_fields() {
    let rom = make_rom(0x8000, 0x1B, 3, b"TETRIS");
    let header = CartridgeHeader::try_new(&rom).unwrap();
    assert_eq!(header.title, "TETRIS");
    assert_eq!(header.cartridge_type, CartridgeType::Mbc5RamBattery);
    assert_eq!(header.ram_size, RamSize::KiloBytes32);
    assert_eq!(header.rom_size, 32 * 1024);
    assert_eq!(header.entrypoint, &[0x00, 0xC3, 0x50, 0x01]);
    assert_eq!(header.licensee, Licensee::Old(0));
    assert_eq!(header.manufacturer_code, Some(&rom[0x13f..0x143]));
    assert_eq!(header.cgb_flag, Some(0));
}

#[test]
fn header_errors() {
    assert_eq!(CartridgeHeader::try_new(&[0u8; 0x14F]).err(), Some(header::Error::NoHeader));
    let rom = make_rom(0x8000, 0, 0, &[0xFF, 0xFE]);
    assert_eq!(CartridgeHeader::try_new(&rom).err(), Some(header::Error::InvalidTitle));
}

#[test]
fn long_title_has_no_manufacturer_code() {
    let rom = make_rom(0x8000, 0, 0, b"ABCDEFGHIJKLMNOP");
    let header = CartridgeHeader::try_new(&rom).unwrap();
    assert_eq!(header.title, "ABCDEFGHIJKLMNOP");
    assert_eq!(header.manufacturer_code, None);
    assert_eq!(header.cgb_flag, None);
}

#[test]
fn ram_sizes_and_text() {
    assert_eq!(RamSize::from(0).into_usize(), Some(0));
    assert_eq!(RamSize::from(2).into_usize(), Some(8 * 1024));
    assert_eq!(RamSize::from(4).into_usize(), Some(128 * 1024));
    assert_eq!(RamSize::from(5).into_usize(), Some(64 * 1024));
    assert_eq!(RamSize::from(1).into_usize(), None);
    assert_eq!(RamSize::from(0).to_string(), "None");
    assert_eq!(RamSize::from(3).to_string(), "32 KiB");
    assert_eq!(RamSize::from(42).to_string(), "Unknown (42)");
    assert_eq!(CartridgeType::from(0x13), CartridgeType::Mbc3RamBattery);
    assert_eq!(CartridgeType::from(0x42), CartridgeType::Unknown(0x42));
}

#[test]
fn new_mapper_errors() {
    assert!(matches!(
        new_mapper(vec![0u8; 0x100]),
        Err(Error::InvalidHeader(header::Error::NoHeader))
    ));
    assert!(matches!(
        new_mapper(make_rom(0x8000, 0x00, 1, b"X")),
        Err(Error::InvalidHeader(header::Error::InvalidRamSize))
    ));
    assert!(matches!(
        new_mapper(make_rom(0x8000, 0x05, 0, b"X")),
        Err(Error::UnsupportedMapper(CartridgeType::Mbc2))
    ));
    assert!(matches!(
        new_mapper(make_rom(0x8000, 0x0F, 0, b"X")),
        Err(Error::UnsupportedMapper(CartridgeType::Mbc3TimerBattery))
    ));
    assert!(matches!(
        new_mapper(make_rom(0x8000, 0x10, 0, b"X")),
        Err(Error::UnsupportedMapper(CartridgeType::Mbc3TimerRamBattery))
    ));
}

#[test]
fn rom_only_reads_and_ignores_writes() {
    let rom = make_rom(0x8000, 0x00, 0, b"X");
    let mut cart = new_mapper(rom).unwrap();
    assert!(matches!(cart, Cartridge::RomOnly(_)));
    assert_eq!(cart.read(0x101), 0xC3);
    cart.write(0x101, 0x12);
    assert_eq!(cart.read(0x101), 0xC3);
    assert_eq!(cart.read(0xA000), 0);
    assert!(cart.battery_backed_ram().is_none());
    assert_eq!(cart.restore_battery_backed_ram(&[1, 2]), Err(Error::CartridgeHasNoRam));
    assert_eq!(cart.header().unwrap().title, "X");
}

#[test]
fn mbc1_banks_and_ram() {
    let rom = make_rom(0x10000, 0x03, 3, b"MBC1");
    let mut cart = new_mapper(rom).unwrap();
    assert!(matches!(cart, Cartridge::Mbc1(_)));
    // Bank 1 is mapped at 0x4000
    assert_eq!(cart.read(0x4000), 1);
    cart.write(0x2000, 3);
    assert_eq!(cart.read(0x4000), 3);
    // Bank 0 selects bank 1
    cart.write(0x2000, 0);
    assert_eq!(cart.read(0x4000), 1);
    // RAM is disabled: reads 0, writes are ignored
    cart.write(0xA000, 0x55);
    assert_eq!(cart.read(0xA000), 0);
    cart.write(0x0000, 0x0A);
    cart.write(0xA000, 0x55);
    assert_eq!(cart.read(0xA000), 0x55);
    // In advanced mode each RAM bank is the whole 8 KiB window, and banks do not alias
    cart.write(0x6000, 1);
    cart.write(0x4000, 1);
    cart.write(0xA000, 0x66);
    assert_eq!(cart.read(0xA000), 0x66);
    cart.write(0xBFFF, 0x77);
    cart.write(0x4000, 0);
    assert_eq!(cart.read(0xA000), 0x55);
    assert_eq!(cart.read(0xBFFF), 0);
    cart.write(0x4000, 3);
    assert_eq!(cart.read(0xA000), 0);
    cart.write(0x4000, 1);
    assert_eq!(cart.read(0xBFFF), 0x77);
    assert!(cart.battery_backed_ram().is_none());
}

#[test]
fn mbc5_ram_and_battery() {
    let rom = make_rom(0x10000, 0x1B, 2, b"MBC5");
    let mut cart = new_mapper(rom).unwrap();
    assert!(matches!(cart, Cartridge::Mbc5(_)));
    // Bank 0 is mapped at 0x4000 after reset
    assert_eq!(cart.read(0x4000), 0);
    cart.write(0x2000, 2);
    assert_eq!(cart.read(0x4000), 2);
    // Banks beyond the ROM wrap
    cart.write(0x2000, 5);
    assert_eq!(cart.read(0x4000), 1);
    // Disabled RAM reads 0xFF
    assert_eq!(cart.read(0xA000), 0xFF);
    cart.write(0x0000, 0x0A);
    cart.write(0xA123, 0x42);
    assert_eq!(cart.read(0xA123), 0x42);
    let ram = cart.battery_backed_ram().unwrap();
    assert_eq!(ram.len(), 8 * 1024);
    assert_eq!(ram[0x123], 0x42);

    assert_eq!(
        cart.restore_battery_backed_ram(&[1, 2, 3]),
        Err(Error::UnexpectedRamSize { expected: 8 * 1024, actual: 3 })
    );
    let saved = vec![7u8; 8 * 1024];
    assert_eq!(cart.restore_battery_backed_ram(&saved), Ok(()));
    assert_eq!(cart.battery_backed_ram().unwrap(), &saved[..]);
    assert_eq!(cart.read(0xA000), 7);
}

#[test]
fn mapper_acceptance() {
    assert!(power_of_two(0x8000));
    assert!(!power_of_two(0x8001));
    assert!(!power_of_two(0));
    assert!(mapper_accepts_rom(&make_rom(0x8000, 0x01, 0, b"X")));
    assert!(!mapper_accepts_rom(&make_rom(0x8001, 0x01, 0, b"X")));
    assert!(mapper_accepts_rom(&make_rom(0x80000, 0x01, 0, b"X")));
    assert!(!mapper_accepts_rom(&make_rom(0x100000, 0x01, 0, b"X")));
    assert!(mapper_accepts_rom(&make_rom(0x8001, 0x00, 0, b"X")));
}

#[test]
fn mbc5_without_ram_reads_open_bus() {
    let rom = make_rom(0x8000, 0x19, 0, b"NORAM");
    let mut cart = new_mapper(rom).unwrap();
    cart.write(0x0000, 0x0A);
    assert!(cart.serves(0xA000));
    assert_eq!(cart.read(0xA000), 0xFF);
    cart.write(0xA000, 0x12);
    assert_eq!(cart.read(0xA000), 0xFF);
    assert_eq!(cart.battery_backed_ram().unwrap().len(), 0);
}

#[test]
fn mbc3_banks_ram_and_clock() {
    let rom = make_rom(0x10000, 0x13, 3, b"MBC3");
    let mut cart = new_mapper(rom).unwrap();
    assert!(matches!(cart, Cartridge::Mbc3(_)));
    assert_eq!(cart.read(0x0000), 0);
    assert_eq!(cart.read(0x4000), 1);
    cart.write(0x2000, 3);
    assert_eq!(cart.read(0x4000), 3);
    cart.write(0x2000, 0);
    assert_eq!(cart.read(0x4000), 1);
    // Banks beyond the ROM wrap
    cart.write(0x2000, 0x86);
    assert_eq!(cart.read(0x4000), 2);
    // Disabled RAM reads 0xFF and ignores writes
    assert_eq!(cart.read(0xA000), 0xFF);
    cart.write(0xA000, 0x11);
    cart.write(0x0000, 0x0A);
    assert_eq!(cart.read(0xA000), 0);
    cart.write(0xA000, 0x11);
    cart.write(0x4000, 2);
    cart.write(0xA000, 0x22);
    assert_eq!(cart.read(0xA000), 0x22);
    cart.write(0x4000, 0);
    assert_eq!(cart.read(0xA000), 0x11);
    // The registers of the clock hold what is written to them
    cart.write(0x4000, 0x08);
    cart.write(0xA000, 30);
    cart.write(0x6000, 0);
    cart.write(0x6000, 1);
    assert_eq!(cart.read(0xA000), 30);
    cart.write(0x4000, 0x0C);
    assert_eq!(cart.read(0xA000), 0);
    cart.write(0x4000, 0x0D);
    assert_eq!(cart.read(0xBFFF), 0xFF);
    let ram = cart.battery_backed_ram().unwrap();
    assert_eq!(ram.len(), 32 * 1024);
    assert_eq!(ram[0], 0x11);
    assert_eq!(ram[2 * 0x2000], 0x22);
    assert!(mapper_accepts_rom(&make_rom(0x200000, 0x13, 3, b"X")));
    assert!(!mapper_accepts_rom(&make_rom(0x400000, 0x13, 3, b"X")));
}
