# rusty_boy

A Game Boy (DMG) emulator library, verified with Verus: every function of `src/` carries a
contract that Verus proves.

- `decoder`, `alu`, `cpu`, `interrupts`, `memory`: the SM83 CPU, its opcode tables, its
  arithmetic and its interrupts, over a memory trait.
- `header`, `cartridge`, `mappers`: the cartridge header and the ROM-only, MBC1 and MBC5
  mappers, with their battery-backed RAM.
- `ppu` (with `vram`, `oam`, `regs`, `dma`, `selection`, `modes`): the picture processing unit,
  drawing each line of the frame.
- `timer`, `joypad`, `address_space`, `emulator`: the rest of the machine and the emulator
  that runs it frame after frame.
- `disassembler`, `rom`, `file_rom`: ROM images and their disassembly.
- `surface`, `playdate`, `web`, `theme`: the logic of the front ends (desktop window, Playdate
  handheld, web browser).
- `stack`, `leb128`, `device`: the tooling: the stack usage report of a program, and the
  commands sent to a Playdate.

`app/` is the desktop program around the library: it runs a ROM in an SDL window, disassembles
a ROM, or prints the stack usage report of an ELF file. `tests/` runs the library on concrete
values.
