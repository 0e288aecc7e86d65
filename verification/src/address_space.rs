//! The address space of the Game Boy: the cartridge, the work RAM, the high RAM and the
//! memory-mapped peripherals, as the CPU sees them.
use vstd::prelude::*;

use crate::cartridge::{
    Cartridge, CartridgeModel, lemma_cartridge_ram_write_read, lemma_cartridge_write_wf,
    ram_is_mapped,
};
use crate::interrupts::InterruptRegs;
use crate::joypad::{Joypad, JoypadModel, joypad_read, joypad_write};
use crate::mappers::{Mapper, is_cartridge_address};
use crate::memory::{Address, Memory};
use crate::ppu::{Ppu, PpuModel, initial_ppu, ppu_read, ppu_wf, ppu_write};
use crate::timer::{Timer, TimerModel, timer_read, timer_write};

verus! {

/// The size of the work RAM
pub const WRAM_SIZE: usize = 0x2000;

/// The size of the high RAM
pub const HRAM_SIZE: usize = 0x7f;

/// The memory map of the Game Boy
pub struct GbAddressSpace {
    /// The cartridge, mapped from 0x0000 to 0x8000 and from 0xA000 to 0xC000
    pub cartridge: Cartridge,
    /// The PPU, with the VRAM, the OAM and the LCD registers
    pub ppu: Ppu,
    /// The work RAM, mapped from 0xC000 (and mirrored from 0xE000)
    pub wram: Vec<u8>,
    /// The high RAM, mapped from 0xFF80
    pub hram: Vec<u8>,
    /// The interrupt registers, at 0xFF0F and 0xFFFF
    pub interrupt_regs: InterruptRegs,
    /// The joypad register, at 0xFF00
    pub joypad: Joypad,
    /// The timer registers, from 0xFF04 to 0xFF07
    pub timer: Timer,
    /// The serial transfer data, at 0xFF01
    pub sb: u8,
    /// The serial transfer control, at 0xFF02
    pub sc: u8,
}

/// The state of the address space.
pub struct GbModel {
    /// The state of the cartridge
    pub cartridge: CartridgeModel,
    /// The state of the PPU
    pub ppu: PpuModel,
    /// The work RAM
    pub wram: Seq<u8>,
    /// The high RAM
    pub hram: Seq<u8>,
    /// The interrupt registers
    pub interrupt_regs: InterruptRegs,
    /// The joypad
    pub joypad: JoypadModel,
    /// The timer
    pub timer: TimerModel,
    /// The serial transfer data
    pub sb: u8,
    /// The serial transfer control
    pub sc: u8,
}

impl View for GbAddressSpace {
    type V = GbModel;

    open spec fn view(&self) -> GbModel {
        GbModel {
            cartridge: self.cartridge@,
            ppu: self.ppu@,
            wram: self.wram@,
            hram: self.hram@,
            interrupt_regs: self.interrupt_regs,
            joypad: self.joypad@,
            timer: self.timer@,
            sb: self.sb,
            sc: self.sc,
        }
    }
}

/// Whether `address` is mapped to the PPU.
pub open spec fn is_ppu_mapped(address: Address) -> bool {
    (0x8000 <= address <= 0x9FFF) || (0xFE00 <= address <= 0xFE9F) || (0xFF40 <= address
        <= 0xFF4B)
}

/// The value that a read of `address` returns. Accesses that the cartridge does not serve (the
/// enabled RAM of an MBC5 cartridge without RAM) read 0xFF, as an open bus; so do the unused
/// I/O registers and the region from 0xFEA0, which read 0.
pub open spec fn gb_read(m: GbModel, address: Address) -> u8 {
    if is_cartridge_address(address) {
        if Cartridge::can_access(m.cartridge, address) {
            Cartridge::read_view(m.cartridge, address)
        } else {
            0xFF
        }
    } else if 0xC000 <= address <= 0xDFFF {
        m.wram[address - 0xC000]
    } else if 0xFF80 <= address <= 0xFFFE {
        m.hram[address - 0xFF80]
    } else if 0xE000 <= address <= 0xFDFF {
        m.wram[address - 0xE000]
    } else if is_ppu_mapped(address) {
        ppu_read(m.ppu, address)
    } else if address == 0xFF00 {
        joypad_read(m.joypad)
    } else if address == 0xFF01 {
        m.sb
    } else if address == 0xFF02 {
        m.sc
    } else if 0xFF04 <= address <= 0xFF07 {
        timer_read(m.timer, address)
    } else if address == 0xFF0F || address == 0xFFFF {
        m.interrupt_regs.spec_read(address)
    } else {
        0
    }
}

/// The state after a write of `value` at `address`. Writes that the cartridge does not serve,
/// to the unused I/O registers and to the region from 0xFEA0 are ignored; the serial control
/// keeps its low 7 bits.
pub open spec fn gb_write(m: GbModel, address: Address, value: u8) -> GbModel {
    if is_cartridge_address(address) {
        if Cartridge::can_access(m.cartridge, address) {
            GbModel { cartridge: Cartridge::write_view(m.cartridge, address, value), ..m }
        } else {
            m
        }
    } else if 0xC000 <= address <= 0xDFFF {
        GbModel { wram: m.wram.update(address - 0xC000, value), ..m }
    } else if 0xFF80 <= address <= 0xFFFE {
        GbModel { hram: m.hram.update(address - 0xFF80, value), ..m }
    } else if 0xE000 <= address <= 0xFDFF {
        GbModel { wram: m.wram.update(address - 0xE000, value), ..m }
    } else if is_ppu_mapped(address) {
        GbModel { ppu: ppu_write(m.ppu, address, value), ..m }
    } else if address == 0xFF00 {
        GbModel { joypad: joypad_write(m.joypad, value), ..m }
    } else if address == 0xFF01 {
        GbModel { sb: value, ..m }
    } else if address == 0xFF02 {
        GbModel { sc: value & 0x7f, ..m }
    } else if 0xFF04 <= address <= 0xFF07 {
        GbModel { timer: timer_write(m.timer, address, value), ..m }
    } else if address == 0xFF0F || address == 0xFFFF {
        GbModel { interrupt_regs: m.interrupt_regs.spec_write(address, value), ..m }
    } else {
        m
    }
}

/// The invariant of the address space: the cartridge and the PPU are well formed and the
/// RAMs have their sizes.
pub open spec fn gb_wf(m: GbModel) -> bool {
    &&& Cartridge::wf_view(m.cartridge)
    &&& ppu_wf(m.ppu)
    &&& m.wram.len() == 0x2000
    &&& m.hram.len() == 0x7f
}

/// The address space at power on, holding `cartridge`: RAMs cleared, the peripherals reset.
pub open spec fn initial_gb(m: GbModel, cartridge: CartridgeModel) -> bool {
    &&& m.cartridge == cartridge
    &&& initial_ppu(m.ppu)
    &&& m.wram == Seq::new(0x2000, |i: int| 0u8)
    &&& m.hram == Seq::new(0x7f, |i: int| 0u8)
    &&& m.interrupt_regs.enable_reg.0 == 0
    &&& m.interrupt_regs.flags_reg.0 == 0
    &&& m.joypad == (JoypadModel { buttons: 0xf, dpad: 0xf, sel_buttons: false, sel_dpad: false })
    &&& m.timer == (TimerModel { div: 0, tima: 0, tma: 0, tac: 0, request_div_reset: false })
    &&& m.sb == 0
    &&& m.sc == 0
}

/// Every write keeps the invariant of the address space, and leaves the line and the cycle
/// count of the PPU unchanged.
pub proof fn lemma_gb_write_wf(m: GbModel, address: Address, value: u8)
    requires
        gb_wf(m),
    ensures
        gb_wf(gb_write(m, address, value)),
        gb_write(m, address, value).ppu.line == m.ppu.line,
        gb_write(m, address, value).ppu.cycles == m.ppu.cycles,
{
    if is_cartridge_address(address) && Cartridge::can_access(m.cartridge, address) {
        lemma_cartridge_write_wf(m.cartridge, address, value);
    }
}

/// Whether `address` is a byte of RAM on the bus: the work RAM, its mirror, the high RAM, the
/// video RAM, the object attribute memory, or a byte of the cartridge RAM that is mapped (see
/// `ram_is_mapped`).
pub open spec fn is_ram_address(m: GbModel, address: Address) -> bool {
    ||| 0xC000 <= address <= 0xFDFF
    ||| 0xFF80 <= address <= 0xFFFE
    ||| 0x8000 <= address <= 0x9FFF
    ||| 0xFE00 <= address <= 0xFE9F
    ||| ram_is_mapped(m.cartridge, address)
}

/// A read of a RAM address gives back the value last written there.
pub proof fn lemma_gb_ram_write_read(m: GbModel, address: Address, value: u8)
    requires
        gb_wf(m),
        is_ram_address(m, address),
    ensures
        gb_read(gb_write(m, address, value), address) == value,
{
    if ram_is_mapped(m.cartridge, address) {
        lemma_cartridge_ram_write_read(m.cartridge, address, value);
    }
}

/// A write to a byte of the work RAM or the high RAM leaves every other such byte as it was.
pub proof fn lemma_gb_ram_write_other(m: GbModel, address: Address, other: Address, value: u8)
    requires
        gb_wf(m),
        0xC000 <= address <= 0xDFFF || 0xFF80 <= address <= 0xFFFE,
        0xC000 <= other <= 0xDFFF || 0xFF80 <= other <= 0xFFFE,
        address != other,
    ensures
        gb_read(gb_write(m, address, value), other) == gb_read(m, other),
{
}

/// The region from 0xE000 to 0xFDFF mirrors the work RAM from 0xC000: both addresses read the
/// same byte.
pub proof fn lemma_gb_echo_ram(m: GbModel, address: Address)
    requires
        gb_wf(m),
        0xE000 <= address <= 0xFDFF,
    ensures
        gb_read(m, address) == gb_read(m, (address - 0x2000) as u16),
{
}

impl GbAddressSpace {
    /// The address space of a Game Boy holding `cartridge`, at power on
    pub fn new(cartridge: Cartridge) -> (r: Self)
        requires
            Cartridge::wf_view(cartridge@),
        ensures
            initial_gb(r@, cartridge@),
            gb_wf(r@),
    {
        let wram = vec![0u8; WRAM_SIZE];
        let hram = vec![0u8; HRAM_SIZE];
        assert(wram@ =~= Seq::new(0x2000, |i: int| 0u8));
        assert(hram@ =~= Seq::new(0x7f, |i: int| 0u8));
        Self {
            cartridge,
            ppu: Ppu::new(),
            wram,
            hram,
            interrupt_regs: InterruptRegs::new(),
            joypad: Joypad::new(),
            timer: Timer::new(),
            sb: 0,
            sc: 0,
        }
    }

    /// Resets everything but the cartridge to its state at power on
    pub fn reset(&mut self)
        requires
            gb_wf(old(self)@),
        ensures
            initial_gb(final(self)@, old(self)@.cartridge),
            gb_wf(final(self)@),
    {
        self.ppu = Ppu::new();
        let mut i: usize = 0;
        while i < WRAM_SIZE
            invariant
                i <= 0x2000,
                self@.cartridge == old(self)@.cartridge,
                Cartridge::wf_view(self@.cartridge),
                initial_ppu(self@.ppu),
                ppu_wf(self@.ppu),
                self.wram@.len() == 0x2000,
                self.hram@.len() == 0x7f,
                forall|k: int| 0 <= k < i ==> self.wram@[k] == 0,
            decreases 0x2000 - i,
        {
            self.wram.set(i, 0);
            i = i + 1;
        }
        let mut i: usize = 0;
        while i < HRAM_SIZE
            invariant
                i <= 0x7f,
                self@.cartridge == old(self)@.cartridge,
                Cartridge::wf_view(self@.cartridge),
                initial_ppu(self@.ppu),
                ppu_wf(self@.ppu),
                self.hram@.len() == 0x7f,
                self.wram@.len() == 0x2000,
                forall|k: int| 0 <= k < 0x2000 ==> self.wram@[k] == 0,
                forall|k: int| 0 <= k < i ==> self.hram@[k] == 0,
            decreases 0x7f - i,
        {
            self.hram.set(i, 0);
            i = i + 1;
        }
        assert(self.wram@ =~= Seq::new(0x2000, |i: int| 0u8));
        assert(self.hram@ =~= Seq::new(0x7f, |i: int| 0u8));
        self.interrupt_regs = InterruptRegs::new();
        self.joypad = Joypad::new();
        self.timer = Timer::new();
        self.sb = 0;
        self.sc = 0;
    }
}

impl Memory for GbAddressSpace {
    open spec fn wf_view(m: GbModel) -> bool {
        gb_wf(m)
    }

    open spec fn read_view(m: GbModel, address: Address) -> u8 {
        gb_read(m, address)
    }

    open spec fn write_view(m: GbModel, address: Address, value: u8) -> GbModel {
        gb_write(m, address, value)
    }

    fn read(&self, address: Address) -> (r: u8) {
        if address <= 0x7FFF || (0xA000 <= address && address <= 0xBFFF) {
            if self.cartridge.serves(address) {
                self.cartridge.read(address)
            } else {
                0xFF
            }
        } else if 0xC000 <= address && address <= 0xDFFF {
            self.wram[address as usize - 0xC000]
        } else if 0xFF80 <= address && address <= 0xFFFE {
            self.hram[address as usize - 0xFF80]
        } else if 0xE000 <= address && address <= 0xFDFF {
            // This region must not be used (according to nintendo), but unfortunately some games seem to rely on it.
            self.wram[address as usize - 0xE000]
        } else if (0x8000 <= address && address <= 0x9FFF) || (0xFE00 <= address && address
            <= 0xFE9F) || (0xFF40 <= address && address <= 0xFF4B) {
            self.ppu.read(address)
        } else if address == 0xFF00 {
            self.joypad.read(address)
        } else if address == 0xFF01 {
            self.sb
        } else if address == 0xFF02 {
            self.sc
        } else if 0xFF04 <= address && address <= 0xFF07 {
            self.timer.read(address)
        } else if address == 0xFF0F || address == 0xFFFF {
            self.interrupt_regs.read(address)
        } else {
            // Unimplemented I/O registers, and the region from 0xFEA0 that must not be used
            0
        }
    }

    fn write(&mut self, address: Address, value: u8) {
        if address <= 0x7FFF || (0xA000 <= address && address <= 0xBFFF) {
            if self.cartridge.serves(address) {
                self.cartridge.write(address, value);
            }
        } else if 0xC000 <= address && address <= 0xDFFF {
            self.wram.set(address as usize - 0xC000, value);
        } else if 0xFF80 <= address && address <= 0xFFFE {
            self.hram.set(address as usize - 0xFF80, value);
        } else if 0xE000 <= address && address <= 0xFDFF {
            // This region must not be used (according to nintendo), but unfortunately some games seem to rely on it.
            self.wram.set(address as usize - 0xE000, value);
        } else if (0x8000 <= address && address <= 0x9FFF) || (0xFE00 <= address && address
            <= 0xFE9F) || (0xFF40 <= address && address <= 0xFF4B) {
            self.ppu.write(address, value);
        } else if address == 0xFF00 {
            self.joypad.write(address, value);
        } else if address == 0xFF01 {
            self.sb = value;
        } else if address == 0xFF02 {
            self.sc = value;
            self.sc = self.sc & 0x7f;
        } else if 0xFF04 <= address && address <= 0xFF07 {
            self.timer.write(address, value);
        } else if address == 0xFF0F || address == 0xFFFF {
            self.interrupt_regs.write(address, value);
        }
    }
}

} // verus!
