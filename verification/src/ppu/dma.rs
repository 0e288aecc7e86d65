//! The OAM DMA engine: copies 160 bytes from memory, one byte every 4 cycles.
use vstd::prelude::*;

use super::oam::OAM_SIZE;
use crate::alu::Cycles;
use crate::memory::{Address, Memory};

verus! {

/// The state of the DMA engine.
pub struct DmaState {
    /// A transfer is in progress
    pub active: bool,
    /// The source address of the transfer
    pub base_address: Address,
    /// The number of bytes copied so far
    pub current_element: u16,
}

/// The engine that performs OAM DMA transfers
pub struct DmaEngine {
    active: bool,
    base_address: Address,
    current_element: u16,
}

impl View for DmaEngine {
    type V = DmaState;

    closed spec fn view(&self) -> DmaState {
        DmaState {
            active: self.active,
            base_address: self.base_address,
            current_element: self.current_element,
        }
    }
}

/// The state of a DMA engine: the element being copied is below 160 while a transfer is in
/// progress, and the source address is a multiple of 256.
pub open spec fn dma_wf(d: DmaState) -> bool {
    &&& d.current_element <= 160
    &&& (d.active ==> d.current_element < 160)
    &&& d.base_address % 256 == 0
}

/// The DMA engine and the memory after running the engine for `cycles` cycles: while a
/// transfer is in progress, every 4 cycles the byte at the source address plus the current
/// element is copied to the OAM, at 0xFE00 plus the current element; the transfer ends after
/// 160 bytes.
pub open spec fn dma_run<T: Memory>(d: DmaState, cycles: nat, m: T::V) -> (DmaState, T::V)
    decreases cycles,
{
    if cycles < 4 || !d.active {
        (d, m)
    } else {
        let value = T::read_view(m, (d.base_address + d.current_element) as u16);
        let m2 = T::write_view(m, (0xFE00 + d.current_element) as u16, value);
        let next = (d.current_element + 1) as u16;
        dma_run::<T>(
            DmaState { active: next != 160, current_element: next, ..d },
            (cycles - 4) as nat,
            m2,
        )
    }
}

/// Running the engine keeps a property of the memory that every write keeps.
pub proof fn lemma_dma_run_keeps<T: Memory>(
    d: DmaState,
    cycles: nat,
    m: T::V,
    inv: spec_fn(T::V) -> bool,
)
    requires
        inv(m),
        forall|m2: T::V, a: u16, v: u8| inv(m2) ==> #[trigger] inv(T::write_view(m2, a, v)),
    ensures
        inv(dma_run::<T>(d, cycles, m).1),
    decreases cycles,
{
    if cycles >= 4 && d.active {
        let value = T::read_view(m, (d.base_address + d.current_element) as u16);
        let m2 = T::write_view(m, (0xFE00 + d.current_element) as u16, value);
        let next = (d.current_element + 1) as u16;
        lemma_dma_run_keeps::<T>(
            DmaState { active: next != 160, current_element: next, ..d },
            (cycles - 4) as nat,
            m2,
            inv,
        );
    }
}

impl DmaEngine {
    /// An idle DMA engine
    pub fn new() -> (r: Self)
        ensures
            r@ == (DmaState { active: false, base_address: 0, current_element: 0 }),
            dma_wf(r@),
    {
        Self { active: false, base_address: 0, current_element: 0 }
    }

    /// Starts a transfer from the address `base` * 256
    pub fn trigger(&mut self, base: u8)
        ensures
            final(self)@ == (DmaState {
                active: true,
                base_address: (base as int * 256) as u16,
                current_element: 0,
            }),
            dma_wf(final(self)@),
    {
        self.base_address = (base as Address) * 256;
        self.current_element = 0;
        self.active = true;
    }

    /// Runs the transfer for the given number of cycles, a multiple of 4
    pub fn run<T: Memory>(&mut self, cycles: Cycles, memory: &mut T)
        requires
            dma_wf(old(self)@),
            T::wf_view(old(memory)@),
            cycles.0 % 4 == 0,
        ensures
            dma_wf(final(self)@),
            T::wf_view(final(memory)@),
            (final(self)@, final(memory)@) == dma_run::<T>(old(self)@, cycles.0 as nat, old(memory)@),
    {
        let ghost total = cycles.0;
        let mut cycles = cycles;
        while cycles.0 != 0 && self.active
            invariant
                dma_wf(self@),
                T::wf_view(memory@),
                cycles.0 % 4 == 0,
                dma_run::<T>(self@, cycles.0 as nat, memory@) == dma_run::<T>(
                    old(self)@,
                    total as nat,
                    old(memory)@,
                ),
            decreases cycles.0,
        {
            let src_address = self.base_address + self.current_element;
            let dest_address = 0xFE00 + self.current_element;
            let value = memory.read(src_address);
            memory.write(dest_address, value);
            cycles = cycles.minus(Cycles::new(4));
            self.current_element = self.current_element + 1;
            if self.current_element as usize == OAM_SIZE {
                self.active = false;
            }
        }
    }
}

} // verus!
