//! Memory-mapped access via the CPU bus, with a 16-bit address space and 8-bit memory
//! accesses.
use vstd::prelude::*;

verus! {

/// The Address type of the SM83 CPU, which corresponds to the 16 bits of its address space
pub type Address = u16;

/// Trait that provides a memory access interface for the CPU.
///
/// A memory is described by a model (its view): what a read of each address returns in a
/// model, and the model that a write leaves. `wf_view` holds of the models in which every
/// access is defined.
pub trait Memory: View + Sized {
    /// The models in which every read and write is defined.
    spec fn wf_view(m: Self::V) -> bool;

    /// The value that a read of `address` returns.
    spec fn read_view(m: Self::V, address: Address) -> u8;

    /// The model after writing `value` at `address`.
    spec fn write_view(m: Self::V, address: Address, value: u8) -> Self::V;

    /// Reads the value at the given memory address
    fn read(&self, address: Address) -> (r: u8)
        requires
            Self::wf_view(self@),
        ensures
            r == Self::read_view(self@, address),
    ;

    /// Writes the value at the given memory address with the given value
    fn write(&mut self, address: Address, value: u8)
        requires
            Self::wf_view(old(self)@),
        ensures
            final(self)@ == Self::write_view(old(self)@, address, value),
            Self::wf_view(final(self)@),
    ;
}

} // verus!
