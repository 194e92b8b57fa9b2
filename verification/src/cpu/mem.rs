//! The byte and word interface to the address space.
use vstd::prelude::*;
use crate::bus::{AddressSpace, make_word, low_byte, high_byte};

verus! {

/// Byte-level access to the address space, with little-endian word access
/// built from it.
pub trait Mem {
    /// The address space that reads and writes act on.
    spec fn space(&self) -> AddressSpace;

    /// Reads the byte at `addr`.
    fn mem_read(&self, addr: u16) -> (data: u8)
        requires
            self.space().wf(),
        ensures
            data == self.space().read(addr),
    ;

    /// Writes `data` at `addr`. Program storage is read-only: a write there is
    /// a protection fault, which callers rule out beforehand.
    fn mem_write(&mut self, addr: u16, data: u8)
        requires
            old(self).space().wf(),
            AddressSpace::writable(addr),
        ensures
            final(self).space() == old(self).space().write(addr, data),
    ;

    /// Reads the little-endian word at `pos`: low byte first.
    fn mem_read_u16(&self, pos: u16) -> (data: u16)
        requires
            self.space().wf(),
        ensures
            data == self.space().read_u16(pos),
    {
        let low = self.mem_read(pos);
        let high = self.mem_read(pos.wrapping_add(1));
        make_word(low, high)
    }

    /// Writes `data` as a little-endian word at `pos`: low byte first.
    fn mem_write_u16(&mut self, pos: u16, data: u16)
        requires
            old(self).space().wf(),
            AddressSpace::writable(pos),
            AddressSpace::writable(pos.wrapping_add(1)),
        ensures
            final(self).space() == old(self).space().write_u16(pos, data),
    {
        let high = high_byte(data);
        let low = low_byte(data);
        self.mem_write(pos, low);
        self.mem_write(pos.wrapping_add(1), high);
    }
}

} // verus!
