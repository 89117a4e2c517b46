use vstd::prelude::*;

verus! {

/// Conditions that stop a machine cycle before it changes any state.
#[derive(Clone, Copy, Debug, PartialEq, Eq, Structural)]
pub enum Fault {
    /// The fetched byte, after the 0xCB escape when `prefixed`, names no
    /// implemented instruction; `pc` is the address it was read from.
    UnimplementedOpcode { opcode: u8, prefixed: bool, pc: u16 },
    /// A bus access targeted an address that no region serves (or that its
    /// region cannot serve in that direction).
    UnmappedAddress { addr: u16 },
}

} // verus!
