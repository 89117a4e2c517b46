use vstd::prelude::*;
use crate::bus::{read_spec, write_spec, Addr, Bus, BusState};
use crate::fault::Fault;
use crate::reg::{hi_byte, join_bytes, lo_byte, wrap16};

verus! {

/// The address after `addr`, wrapping past 0xFFFF.
pub open spec fn next_addr(addr: u16) -> u16 {
    wrap16(addr + 1)
}

pub fn addr_after(addr: Addr) -> (r: Addr)
    ensures
        r == next_addr(addr),
{
    addr.wrapping_add(1)
}

/// Where an instruction's source value comes from, and how far reading it
/// has come.
#[derive(Clone, Copy, Debug, PartialEq, Eq, Structural)]
pub enum OpdSrc {
    /// One byte still to read at the address.
    Mem8(Addr),
    /// A byte, ready.
    Done8(u8),
    /// Two bytes still to read, low byte first, starting at the address.
    Mem16(Addr),
    /// The low byte (read from the address) is in; the high byte is next.
    Mem16Half(Addr, u8),
    /// A word, ready.
    Done16(u16),
}

/// Where an instruction's result goes, and how far writing it has come.
#[derive(Clone, Copy, Debug, PartialEq, Eq, Structural)]
pub enum OpdDst {
    /// One byte to write at the address.
    Mem8(Addr, u8),
    /// A word to write, low byte first, starting at the address.
    Mem16(Addr, u16),
    /// The low byte is written; this high byte goes after the address.
    Mem16Half(Addr, u8),
    /// Nothing left to write.
    Done,
}

impl OpdSrc {
    pub open spec fn is_ready(self) -> bool {
        self is Done8 || self is Done16
    }

    /// The address the next read step reads, if any read is left.
    pub open spec fn pending_addr(self) -> Option<u16> {
        match self {
            OpdSrc::Mem8(a) => Some(a),
            OpdSrc::Mem16(a) => Some(a),
            OpdSrc::Mem16Half(a, _) => Some(next_addr(a)),
            _ => None,
        }
    }

    /// The descriptor once the pending read has produced byte `b`.
    pub open spec fn after_read(self, b: u8) -> OpdSrc {
        match self {
            OpdSrc::Mem8(_) => OpdSrc::Done8(b),
            OpdSrc::Mem16(a) => OpdSrc::Mem16Half(a, b),
            OpdSrc::Mem16Half(_, lo) => OpdSrc::Done16(join_bytes(b, lo)),
            _ => self,
        }
    }

    /// One read step against `bus`: a ready descriptor stays as it is.
    pub open spec fn step(self, bus: BusState) -> Result<OpdSrc, Fault> {
        match self.pending_addr() {
            None => Ok(self),
            Some(a) => match read_spec(bus, a) {
                Ok(b) => Ok(self.after_read(b)),
                Err(e) => Err(e),
            },
        }
    }

    /// Performs at most one bus read and returns the next descriptor.
    pub fn read_step(&self, bus: &Bus) -> (r: Result<OpdSrc, Fault>)
        requires
            bus.wf(),
        ensures
            r == self.step(bus@),
    {
        match *self {
            OpdSrc::Done8(_) | OpdSrc::Done16(_) => Ok(*self),
            OpdSrc::Mem8(addr) => match bus.read(addr) {
                Ok(b) => Ok(OpdSrc::Done8(b)),
                Err(e) => Err(e),
            },
            OpdSrc::Mem16(addr) => match bus.read(addr) {
                Ok(b) => Ok(OpdSrc::Mem16Half(addr, b)),
                Err(e) => Err(e),
            },
            OpdSrc::Mem16Half(addr, lo) => match bus.read(addr_after(addr)) {
                Ok(hi) => {
                    let v = ((hi as u16) << 8) | lo as u16;
                    assert(v == join_bytes(hi, lo)) by {
                        let w = hi as u16;
                        let l = lo as u16;
                        assert((w << 8u16) | l == w * 256u16 + l) by (bit_vector)
                            requires
                                w <= 0xFFu16,
                                l <= 0xFFu16,
                        ;
                    }
                    Ok(OpdSrc::Done16(v))
                },
                Err(e) => Err(e),
            },
        }
    }

    pub fn ready(&self) -> (r: bool)
        ensures
            r == self.is_ready(),
    {
        match self {
            OpdSrc::Done8(_) | OpdSrc::Done16(_) => true,
            _ => false,
        }
    }
}

impl OpdDst {
    pub open spec fn is_done(self) -> bool {
        self is Done
    }

    /// The address and byte of the next write, if any write is left.
    pub open spec fn pending_write(self) -> Option<(u16, u8)> {
        match self {
            OpdDst::Mem8(a, v) => Some((a, v)),
            OpdDst::Mem16(a, v) => Some((a, lo_byte(v))),
            OpdDst::Mem16Half(a, hi) => Some((next_addr(a), hi)),
            OpdDst::Done => None,
        }
    }

    /// The descriptor once the pending write is made.
    pub open spec fn after_write(self) -> OpdDst {
        match self {
            OpdDst::Mem16(a, v) => OpdDst::Mem16Half(a, hi_byte(v)),
            _ => OpdDst::Done,
        }
    }

    /// One write step against `bus`: the next descriptor and the bus after
    /// it. A finished descriptor stays finished and writes nothing.
    pub open spec fn step(self, bus: BusState) -> Result<(OpdDst, BusState), Fault> {
        match self.pending_write() {
            None => Ok((self, bus)),
            Some((a, v)) => match write_spec(bus, a, v) {
                Ok(b) => Ok((self.after_write(), b)),
                Err(e) => Err(e),
            },
        }
    }

    /// Performs at most one bus write and returns the next descriptor; on a
    /// fault the bus is unchanged.
    pub fn write_step(&self, bus: &mut Bus) -> (r: Result<OpdDst, Fault>)
        requires
            old(bus).wf(),
        ensures
            final(bus).wf(),
            match self.step(old(bus)@) {
                Ok((d, b)) => r == Ok::<OpdDst, Fault>(d) && final(bus)@ == b,
                Err(e) => r == Err::<OpdDst, Fault>(e) && final(bus)@ == old(bus)@,
            },
    {
        match *self {
            OpdDst::Done => Ok(*self),
            OpdDst::Mem8(addr, val) => match bus.write(addr, val) {
                Ok(()) => Ok(OpdDst::Done),
                Err(e) => Err(e),
            },
            OpdDst::Mem16(addr, val) => {
                let lo = val as u8;
                let hi = (val >> 8) as u8;
                assert(lo == lo_byte(val) && hi == hi_byte(val)) by {
                    assert(val as u8 == (val % 256u16) as u8) by (bit_vector);
                    assert((val >> 8u16) as u8 == (val / 256u16) as u8) by (bit_vector);
                }
                match bus.write(addr, lo) {
                    Ok(()) => Ok(OpdDst::Mem16Half(addr, hi)),
                    Err(e) => Err(e),
                }
            },
            OpdDst::Mem16Half(addr, hi) => match bus.write(addr_after(addr), hi) {
                Ok(()) => Ok(OpdDst::Done),
                Err(e) => Err(e),
            },
        }
    }

    pub fn ready(&self) -> (r: bool)
        ensures
            r == self.is_done(),
    {
        match self {
            OpdDst::Done => true,
            _ => false,
        }
    }
}

/// A source value once it is ready.
#[derive(Clone, Copy, Debug, PartialEq, Eq, Structural)]
pub enum ReadVal {
    Done8(u8),
    Done16(u16),
}

/// The value a ready source descriptor carries.
pub open spec fn value_of(src: OpdSrc) -> ReadVal {
    match src {
        OpdSrc::Done16(v) => ReadVal::Done16(v),
        OpdSrc::Done8(v) => ReadVal::Done8(v),
        _ => ReadVal::Done8(0),
    }
}

impl ReadVal {
    pub fn from_ready(src: OpdSrc) -> (r: ReadVal)
        requires
            src.is_ready(),
        ensures
            r == value_of(src),
    {
        match src {
            OpdSrc::Done16(v) => ReadVal::Done16(v),
            OpdSrc::Done8(v) => ReadVal::Done8(v),
            _ => unreached(),
        }
    }

    pub fn get8(&self) -> (r: u8)
        requires
            *self is Done8,
        ensures
            r == self->Done8_0,
    {
        match self {
            ReadVal::Done8(v) => *v,
            ReadVal::Done16(_) => unreached(),
        }
    }

    pub fn get16(&self) -> (r: u16)
        requires
            *self is Done16,
        ensures
            r == self->Done16_0,
    {
        match self {
            ReadVal::Done16(v) => *v,
            ReadVal::Done8(_) => unreached(),
        }
    }
}

/// Where the CPU stands within the current instruction.
#[derive(Clone, Copy, Debug, PartialEq, Eq, Structural)]
pub enum Stage {
    /// Read the next opcode at PC.
    Fetch,
    /// Read the opcode that follows the 0xCB escape.
    FetchPrefixed,
    /// Resolve the source operand.
    Read(OpdSrc),
    /// Spend one idle cycle, then write.
    Wait(OpdDst),
    /// Resolve the destination operand.
    Write(OpdDst),
}

impl Stage {
    /// The stage after an idle cycle in `Wait`.
    pub fn wait(&self) -> (r: Stage)
        requires
            *self is Wait,
        ensures
            r == Stage::Write(self->Wait_0),
    {
        match *self {
            Stage::Wait(dst) => Stage::Write(dst),
            _ => unreached(),
        }
    }
}

} // verus!
