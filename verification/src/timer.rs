//! The timer: the DIV counter and the TIMA counter, which requests the timer interrupt when it
//! overflows.
use vstd::prelude::*;

use crate::alu::Cycles;
use crate::interrupts::{Interrupt, Interrupts};
use crate::memory::Address;

verus! {

/// TAC bit 2: TIMA is incremented
pub const TAC_ENABLE: u8 = 0x04;

/// TAC bits 1 and 0: the frequency of TIMA
pub const TAC_CLK_SELECT: u8 = 0x03;

/// The number of cycles per tick of DIV
pub const NUM_CYCLES_PER_DIV_TICK: usize = 256;

/// The low byte of the div member is reserved for the invisible part of the div register
const HIDDEN_BITS: u16 = 8;

/// The state of the timer.
pub struct TimerModel {
    /// The cycle counter, whose high byte is DIV
    pub div: u16,
    /// The timer counter
    pub tima: u8,
    /// The timer modulo
    pub tma: u8,
    /// The timer control
    pub tac: u8,
    /// A write to DIV requested its reset, which the next step serves
    pub request_div_reset: bool,
}

/// The timer
pub struct Timer {
    div: u16,
    tima: u8,
    tma: u8,
    tac: u8,
    request_div_reset: bool,
}

impl View for Timer {
    type V = TimerModel;

    closed spec fn view(&self) -> TimerModel {
        TimerModel {
            div: self.div,
            tima: self.tima,
            tma: self.tma,
            tac: self.tac,
            request_div_reset: self.request_div_reset,
        }
    }
}

/// The bit of the cycle counter whose changes increment TIMA, by the clock select bits of TAC:
/// every 16, 64, 256 or 1024 cycles.
pub open spec fn clk_bit(tac: u8) -> u16 {
    let sel = tac & 0x03;
    if sel == 1 {
        4
    } else if sel == 2 {
        6
    } else if sel == 3 {
        8
    } else {
        10
    }
}

/// The timer, and the interrupts it requests, after `cycles` cycles: the cycle counter advances,
/// or restarts from 0 when a write to DIV requested its reset (the request is then served);
/// when the timer is enabled and the counter bits at or above the selected bit change, TIMA
/// is incremented, and on its overflow it is reloaded from TMA and the timer interrupt is
/// requested.
pub open spec fn timer_step(t: TimerModel, cycles: usize) -> (TimerModel, u8) {
    let t1 = TimerModel { div: next_div(t, cycles), request_div_reset: false, ..t };
    if !timer_ticks(t, cycles) {
        (t1, 0)
    } else if t.tima == 0xFF {
        (TimerModel { tima: t.tma, ..t1 }, 0x04u8)
    } else {
        (TimerModel { tima: (t.tima + 1) as u8, ..t1 }, 0u8)
    }
}

/// The cycle counter after `cycles` cycles: 0 when a reset was requested.
pub open spec fn next_div(t: TimerModel, cycles: usize) -> u16 {
    if t.request_div_reset {
        0
    } else {
        ((t.div + cycles) % 65536) as u16
    }
}

/// Whether TIMA is incremented by a step of `cycles` cycles: the timer is enabled and the
/// counter bits at or above the selected bit change.
pub open spec fn timer_ticks(t: TimerModel, cycles: usize) -> bool {
    &&& t.tac & 0x04 != 0
    &&& (t.div ^ next_div(t, cycles)) & !(((1u16 << clk_bit(t.tac)) - 1) as u16) != 0
}

/// A write to DIV restarts the cycle counter at the next step, and the counter then counts the
/// cycles of the steps that follow: DIV is always counting.
pub proof fn lemma_div_restarts(t: TimerModel, value: u8, c1: usize, c2: usize)
    requires
        c2 <= 0xFFFF,
    ensures
        ({
            let t1 = timer_step(timer_write(t, 0xFF04, value), c1).0;
            &&& t1.div == 0
            &&& !t1.request_div_reset
            &&& timer_step(t1, c2).0.div == c2
        }),
{
}

/// TIMA overflows when it is incremented from 0xFF: it is then reloaded from TMA and the timer
/// interrupt is requested; no other step requests it.
pub proof fn lemma_tima_overflow(t: TimerModel, cycles: usize)
    ensures
        timer_step(t, cycles).1 == (if t.tima == 0xFF && timer_ticks(t, cycles) {
            0x04u8
        } else {
            0u8
        }),
        t.tima == 0xFF && timer_ticks(t, cycles) ==> timer_step(t, cycles).0.tima == t.tma,
{
}

/// An enabled timer counts TIMA once for each step that passes a multiple of its period: 16
/// cycles for clock select 1, 64 for 2, 256 for 3 and 1024 for 0 (for a step that does not
/// wrap the cycle counter).
pub proof fn lemma_timer_period(t: TimerModel, cycles: usize)
    requires
        t.tac & 0x04 != 0,
        !t.request_div_reset,
        t.div + cycles < 65536,
    ensures
        t.tac & 0x03 == 1 ==> (timer_ticks(t, cycles) <==> (t.div + cycles) / 16 != t.div / 16),
        t.tac & 0x03 == 2 ==> (timer_ticks(t, cycles) <==> (t.div + cycles) / 64 != t.div / 64),
        t.tac & 0x03 == 3 ==> (timer_ticks(t, cycles) <==> (t.div + cycles) / 256 != t.div
            / 256),
        t.tac & 0x03 == 0 ==> (timer_ticks(t, cycles) <==> (t.div + cycles) / 1024 != t.div
            / 1024),
{
    let x = t.div;
    let y = next_div(t, cycles);
    assert(y == t.div + cycles);
    let b = clk_bit(t.tac);
    let tac = t.tac;
    assert(tac & 0x03 < 4) by (bit_vector);
    assert((b == 4u16 ==> (((x ^ y) & !(((1u16 << b) - 1) as u16) != 0) == (x / 16 != y / 16)))
        && (b == 6u16 ==> (((x ^ y) & !(((1u16 << b) - 1) as u16) != 0) == (x / 64 != y / 64)))
        && (b == 8u16 ==> (((x ^ y) & !(((1u16 << b) - 1) as u16) != 0) == (x / 256 != y
        / 256))) && (b == 10u16 ==> (((x ^ y) & !(((1u16 << b) - 1) as u16) != 0) == (x / 1024
        != y / 1024)))) by (bit_vector);
}

/// Whether `address` is a timer register (0xFF04 to 0xFF07).
pub open spec fn is_timer_address(address: Address) -> bool {
    0xFF04 <= address <= 0xFF07
}

/// The value that a read of the timer register at `address` returns: DIV is the high byte of
/// the cycle counter.
pub open spec fn timer_read(t: TimerModel, address: Address) -> u8 {
    if address == 0xFF04 {
        (t.div >> 8u16) as u8
    } else if address == 0xFF05 {
        t.tima
    } else if address == 0xFF06 {
        t.tma
    } else {
        t.tac
    }
}

/// The timer after a write of `value` to the register at `address`: a write to DIV requests
/// its reset.
pub open spec fn timer_write(t: TimerModel, address: Address, value: u8) -> TimerModel {
    if address == 0xFF04 {
        TimerModel { request_div_reset: true, ..t }
    } else if address == 0xFF05 {
        TimerModel { tima: value, ..t }
    } else if address == 0xFF06 {
        TimerModel { tma: value, ..t }
    } else {
        TimerModel { tac: value, ..t }
    }
}

impl Timer {
    /// A timer with all counters and registers at zero
    pub fn new() -> (r: Self)
        ensures
            r@ == (TimerModel { div: 0, tima: 0, tma: 0, tac: 0, request_div_reset: false }),
    {
        Self { div: 0, tima: 0, tma: 0, tac: 0, request_div_reset: false }
    }

    fn clk_select_bit(&self) -> (r: u16)
        ensures
            r == clk_bit(self.tac),
    {
        match self.tac & TAC_CLK_SELECT {
            // 4 m-cycles are 16 clk-cycles. 16 clk-cycles are represented in 4 bits
            1 => 4,
            // 16 m-cycles are 64 clk-cycles. 64 clk-cycles are represented in 6 bits
            2 => 6,
            // 64 m-cycles are 256 clk-cycles. 256 clk-cycles are represented in 8 bits
            3 => 8,
            // 256 m-cycles are 1024 clk-cycles. 1024 clk-cycles are represented in 10 bits
            _ => 10,
        }
    }

    /// Runs the timer for the given number of cycles, and returns the interrupts it requests
    pub fn step(&mut self, cycles: Cycles) -> (r: Interrupts)
        requires
            cycles.0 <= 0xFFFF,
        ensures
            (final(self)@, r.0) == timer_step(old(self)@, cycles.0),
    {
        let cycles: usize = cycles.value();
        let prev_div = self.div;
        let cur_div = if self.request_div_reset {
            0
        } else {
            prev_div.wrapping_add(cycles as u16)
        };
        self.div = cur_div;
        self.request_div_reset = false;
        if self.tac & TAC_ENABLE == 0 {
            // Timer is disabled
            return Interrupts::new();
        }
        let bit = self.clk_select_bit();
        assert(1u16 << bit >= 1) by (bit_vector)
            requires
                bit <= 10,
        ;
        let bit_mask = !((1u16 << bit) - 1);
        if ((prev_div ^ cur_div) & bit_mask) == 0 {
            // No increment of TIMA required
            return Interrupts::new();
        }
        if self.tima == 0xFF {
            // TIMA overflows: it is reloaded from TMA
            self.tima = self.tma;
            Interrupts::from_interrupt(Interrupt::Timer)
        } else {
            self.tima = self.tima + 1;
            Interrupts::new()
        }
    }

    /// Reads the timer register at `address`
    pub fn read(&self, address: Address) -> (r: u8)
        requires
            is_timer_address(address),
        ensures
            r == timer_read(self@, address),
    {
        match address {
            0xFF04 => (self.div >> HIDDEN_BITS) as u8,
            0xFF05 => self.tima,
            0xFF06 => self.tma,
            _ => self.tac,
        }
    }

    /// Writes the timer register at `address`
    pub fn write(&mut self, address: Address, value: u8)
        requires
            is_timer_address(address),
        ensures
            final(self)@ == timer_write(old(self)@, address, value),
    {
        match address {
            0xFF04 => self.request_div_reset = true,
            0xFF05 => self.tima = value,
            0xFF06 => self.tma = value,
            _ => self.tac = value,
        };
    }
}

} // verus!
