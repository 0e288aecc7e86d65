//! A Game Boy (DMG) emulator library: the SM83 CPU, cartridge mappers, the picture
//! processing unit, timer, joypad and a disassembler.
pub mod bits;
pub mod decoder;
pub mod interrupts;
pub mod alu;
pub mod memory;
pub mod cpu;
pub mod header;
pub mod cartridge;
pub mod mappers;
pub mod ppu;
pub mod timer;
pub mod joypad;
pub mod address_space;
pub mod emulator;
pub mod disassembler;
pub mod rom;
pub mod leb128;
pub mod theme;
pub mod surface;
pub mod file_rom;
pub mod playdate;
pub mod web;
pub mod stack;
pub mod device;
