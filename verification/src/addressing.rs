//! The bus capability: byte-addressable access to up to 65536 locations.
//!
//! `read_byte` and `write_byte` are the primitives; the 16-bit word
//! accessors are derived from them, computing the second address with
//! wraparound. A store is either fully writable or write-protected; either
//! way, out-of-range accesses never fault: reads yield 0 and writes are
//! dropped.

use vstd::prelude::*;
use crate::isa::{
    bus_read, bus_write, bus_read_word_le, bus_write_word_le, bus_read_word_be, bus_write_word_be,
    next_addr,
};

verus! {

/// An address-indexed byte store of up to 65536 locations.
pub trait Addressable: Sized {
    /// The bytes the store holds.
    spec fn mem(&self) -> Seq<u8>;

    /// Whether the store accepts writes at all (false models read-only
    /// storage).
    spec fn writable(&self) -> bool;

    fn read_byte(&self, addr: u16) -> (r: u8)
        ensures
            r == bus_read(self.mem(), addr),
    ;

    fn write_byte(&mut self, addr: u16, val: u8)
        ensures
            final(self).mem() == bus_write(old(self).mem(), addr, val, old(self).writable()),
            final(self).writable() == old(self).writable(),
    ;

    fn read_le_word(&self, addr: u16) -> (r: u16)
        ensures
            r == bus_read_word_le(self.mem(), addr),
    {
        let lo = self.read_byte(addr);
        let hi = self.read_byte(addr.wrapping_add(1));
        proof {
            assert(addr.wrapping_add(1) == next_addr(addr));
        }
        (lo as u16) + (hi as u16) * 256
    }

    fn write_le_word(&mut self, addr: u16, val: u16)
        ensures
            final(self).mem() == bus_write_word_le(
                old(self).mem(),
                addr,
                val,
                old(self).writable(),
            ),
            final(self).writable() == old(self).writable(),
    {
        let lo = (val % 256) as u8;
        let hi = (val / 256) as u8;
        self.write_byte(addr, lo);
        self.write_byte(addr.wrapping_add(1), hi);
        proof {
            assert(addr.wrapping_add(1) == next_addr(addr));
        }
    }

    fn read_be_word(&self, addr: u16) -> (r: u16)
        ensures
            r == bus_read_word_be(self.mem(), addr),
    {
        let hi = self.read_byte(addr);
        let lo = self.read_byte(addr.wrapping_add(1));
        proof {
            assert(addr.wrapping_add(1) == next_addr(addr));
        }
        (hi as u16) * 256 + (lo as u16)
    }

    fn write_be_word(&mut self, addr: u16, val: u16)
        ensures
            final(self).mem() == bus_write_word_be(
                old(self).mem(),
                addr,
                val,
                old(self).writable(),
            ),
            final(self).writable() == old(self).writable(),
    {
        let hi = (val / 256) as u8;
        let lo = (val % 256) as u8;
        self.write_byte(addr, hi);
        self.write_byte(addr.wrapping_add(1), lo);
        proof {
            assert(addr.wrapping_add(1) == next_addr(addr));
        }
    }
}

} // verus!
