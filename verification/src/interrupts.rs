//! Interrupt sources, sets of pending interrupts and the memory-mapped interrupt registers.
use vstd::prelude::*;

verus! {

/// Represents a single interrupt source
#[derive(Debug, Clone, Copy, Eq, PartialEq, Structural)]
pub enum Interrupt {
    Vblank,
    Lcd,
    Timer,
    Serial,
    Joypad,
}

/// The bit of an interrupt source in the interrupt registers.
pub open spec fn interrupt_mask(interrupt: Interrupt) -> u8 {
    match interrupt {
        Interrupt::Vblank => 0x01,
        Interrupt::Lcd => 0x02,
        Interrupt::Timer => 0x04,
        Interrupt::Serial => 0x08,
        Interrupt::Joypad => 0x10,
    }
}

impl Interrupt {
    /// The bit of this interrupt source in the interrupt registers.
    pub fn mask(self) -> (m: u8)
        ensures
            m == interrupt_mask(self),
    {
        match self {
            Interrupt::Vblank => 0x01,
            Interrupt::Lcd => 0x02,
            Interrupt::Timer => 0x04,
            Interrupt::Serial => 0x08,
            Interrupt::Joypad => 0x10,
        }
    }
}

/// The mask of the interrupt bits that the registers hold: the bits of the five sources.
pub const ALL_INTERRUPTS: u8 = 0x1F;

/// Represents an aggregation of interrupt sources
#[derive(Debug, Clone, Copy, Eq, PartialEq, Structural)]
pub struct Interrupts(pub u8);

/// The interrupt whose bit is the lowest set bit among the five interrupt bits of `v`.
pub open spec fn spec_highest_priority(v: u8) -> Option<Interrupt> {
    if v & 0x01 != 0 {
        Some(Interrupt::Vblank)
    } else if v & 0x02 != 0 {
        Some(Interrupt::Lcd)
    } else if v & 0x04 != 0 {
        Some(Interrupt::Timer)
    } else if v & 0x08 != 0 {
        Some(Interrupt::Serial)
    } else if v & 0x10 != 0 {
        Some(Interrupt::Joypad)
    } else {
        None
    }
}

impl Interrupts {
    /// The empty set of interrupts.
    pub fn new() -> (r: Self)
        ensures
            r.0 == 0,
    {
        Self(0)
    }

    /// The set holding exactly the given interrupt.
    pub fn from_interrupt(interrupt: Interrupt) -> (r: Self)
        ensures
            r.0 == interrupt_mask(interrupt),
    {
        Self(interrupt.mask())
    }

    /// The union of two sets of interrupts.
    pub fn bitor(self, rhs: Self) -> (r: Self)
        ensures
            r.0 == self.0 | rhs.0,
    {
        Self(self.0 | rhs.0)
    }

    /// The intersection of two sets of interrupts.
    pub fn bitand(self, rhs: Self) -> (r: Self)
        ensures
            r.0 == self.0 & rhs.0,
    {
        Self(self.0 & rhs.0)
    }

    /// The complement of the set within the interrupt bits of `ALL_INTERRUPTS`.
    pub fn not(self) -> (r: Self)
        ensures
            r.0 == !self.0 & ALL_INTERRUPTS,
    {
        Self(!self.0 & ALL_INTERRUPTS)
    }

    /// The pending interrupt with the highest priority: the one with the lowest bit.
    pub fn highest_priority(self) -> (r: Option<Interrupt>)
        ensures
            r == spec_highest_priority(self.0),
    {
        if self.0 & 0x01 != 0 {
            Some(Interrupt::Vblank)
        } else if self.0 & 0x02 != 0 {
            Some(Interrupt::Lcd)
        } else if self.0 & 0x04 != 0 {
            Some(Interrupt::Timer)
        } else if self.0 & 0x08 != 0 {
            Some(Interrupt::Serial)
        } else if self.0 & 0x10 != 0 {
            Some(Interrupt::Joypad)
        } else {
            None
        }
    }

    /// Removes the given interrupt from the set, keeping it within `ALL_INTERRUPTS`.
    pub fn acknowledge(self, other: Interrupt) -> (r: Self)
        ensures
            r.0 == self.0 & (!interrupt_mask(other) & ALL_INTERRUPTS),
    {
        let other = Interrupts::from_interrupt(other);
        self.bitand(other.not())
    }

    /// Whether any interrupt is in the set.
    pub fn has_any(self) -> (r: bool)
        ensures
            r == (self.0 != 0),
    {
        self.0 != 0
    }
}

/// The bits of the interrupt sources are distinct single bits.
proof fn lemma_interrupt_mask_bit(i: Interrupt)
    ensures
        interrupt_mask(i) == 1 || interrupt_mask(i) == 2 || interrupt_mask(i) == 4
            || interrupt_mask(i) == 8 || interrupt_mask(i) == 16,
        forall|j: Interrupt| j != i ==> interrupt_mask(j) != interrupt_mask(i),
{
}

/// The interrupt with the highest priority is pending, and no interrupt of a lower bit is;
/// there is none exactly when no interrupt is pending.
pub proof fn lemma_highest_priority_pending(v: u8)
    ensures
        match spec_highest_priority(v) {
            Some(i) => v & interrupt_mask(i) != 0 && v & ((interrupt_mask(i) - 1) as u8) == 0,
            None => v & 0x1F == 0,
        },
{
    assert(v & 0x01 == 0 && v & 0x02 == 0 && v & 0x04 == 0 && v & 0x08 == 0 && v & 0x10 == 0
        <==> v & 0x1F == 0) by (bit_vector);
    assert(v & 0 == 0) by (bit_vector);
    assert(v & 0x01 == 0 && v & 0x02 == 0 ==> v & 0x03 == 0) by (bit_vector);
    assert(v & 0x01 == 0 && v & 0x02 == 0 && v & 0x04 == 0 ==> v & 0x07 == 0) by (bit_vector);
    assert(v & 0x01 == 0 && v & 0x02 == 0 && v & 0x04 == 0 && v & 0x08 == 0 ==> v & 0x0F == 0)
        by (bit_vector);
}

/// Acknowledging an interrupt clears its flag and keeps the flags of the other interrupts.
pub proof fn lemma_acknowledge_clears(v: u8, i: Interrupt)
    ensures
        (v & (!interrupt_mask(i) & ALL_INTERRUPTS)) & interrupt_mask(i) == 0,
        forall|j: Interrupt|
            j != i ==> (v & (!interrupt_mask(i) & ALL_INTERRUPTS)) & #[trigger] interrupt_mask(j)
                == v & interrupt_mask(j),
{
    let m = interrupt_mask(i);
    lemma_interrupt_mask_bit(i);
    assert((v & (!m & 0x1Fu8)) & m == 0) by (bit_vector);
    assert forall|j: Interrupt| j != i implies (v & (!m & ALL_INTERRUPTS)) & #[trigger] interrupt_mask(
        j,
    ) == v & interrupt_mask(j) by {
        let n = interrupt_mask(j);
        lemma_interrupt_mask_bit(j);
        assert((v & (!m & 0x1Fu8)) & n == v & n) by (bit_vector)
            requires
                m == 1 || m == 2 || m == 4 || m == 8 || m == 16,
                n == 1 || n == 2 || n == 4 || n == 8 || n == 16,
                m != n,
        ;
    }
}

/// The set of memory-mapped interrupt registers
#[derive(Debug, Clone, Eq, PartialEq, Structural)]
pub struct InterruptRegs {
    pub enable_reg: Interrupts,
    pub flags_reg: Interrupts,
}

impl InterruptRegs {
    /// Constructs the interrupt registers
    pub fn new() -> (r: Self)
        ensures
            r.enable_reg.0 == 0,
            r.flags_reg.0 == 0,
    {
        Self { enable_reg: Interrupts::new(), flags_reg: Interrupts::new() }
    }

    /// The current set of active interrupts (flag is active and it is not masked).
    pub open spec fn spec_active(&self) -> Interrupts {
        Interrupts(self.enable_reg.0 & self.flags_reg.0)
    }

    /// Returns the current set of active interrupts (flag is active and it is not masked)
    pub fn active_interrupts(&self) -> (r: Interrupts)
        ensures
            r == self.spec_active(),
    {
        self.enable_reg.bitand(self.flags_reg)
    }

    /// Clears the flag of the given interrupt.
    pub fn acknowledge(&mut self, interrupt: Interrupt)
        ensures
            final(self).enable_reg == old(self).enable_reg,
            final(self).flags_reg.0 == old(self).flags_reg.0 & (!interrupt_mask(interrupt)
                & ALL_INTERRUPTS),
    {
        self.flags_reg = self.flags_reg.acknowledge(interrupt);
    }

    /// Raises the flags of the given interrupts.
    pub fn trigger(&mut self, interrupts: Interrupts)
        ensures
            final(self).enable_reg == old(self).enable_reg,
            final(self).flags_reg.0 == old(self).flags_reg.0 | interrupts.0,
    {
        self.flags_reg = self.flags_reg.bitor(interrupts);
    }

    /// Whether `address` is one of the two interrupt registers.
    pub open spec fn is_register(address: u16) -> bool {
        address == 0xFFFF || address == 0xFF0F
    }

    /// The value that a read of `address` returns.
    pub open spec fn spec_read(&self, address: u16) -> u8 {
        if address == 0xFFFF {
            self.enable_reg.0
        } else {
            self.flags_reg.0
        }
    }

    /// The registers after a write of `value` at `address`.
    pub open spec fn spec_write(&self, address: u16, value: u8) -> Self {
        if address == 0xFFFF {
            InterruptRegs { enable_reg: Interrupts(value & ALL_INTERRUPTS), ..*self }
        } else {
            InterruptRegs { flags_reg: Interrupts(value & ALL_INTERRUPTS), ..*self }
        }
    }

    /// Reads the interrupt enable (0xFFFF) or interrupt flag (0xFF0F) register.
    pub fn read(&self, address: u16) -> (r: u8)
        requires
            Self::is_register(address),
        ensures
            r == self.spec_read(address),
    {
        if address == 0xFFFF {
            self.enable_reg.0
        } else {
            self.flags_reg.0
        }
    }

    /// Writes the interrupt enable (0xFFFF) or interrupt flag (0xFF0F) register, keeping
    /// only the bits of `ALL_INTERRUPTS`.
    pub fn write(&mut self, address: u16, value: u8)
        requires
            Self::is_register(address),
        ensures
            *final(self) == old(self).spec_write(address, value),
    {
        let value = Interrupts(value).bitand(Interrupts(ALL_INTERRUPTS));
        if address == 0xFFFF {
            self.enable_reg = value;
        } else {
            self.flags_reg = value;
        }
    }
}

} // verus!
