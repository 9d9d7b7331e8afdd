//! Concrete byte stores behind the bus capability: fully mutable RAM and
//! write-protected ROM.

use vstd::prelude::*;
use crate::addressing::Addressable;
use crate::isa::{bus_read, bus_write};

verus! {

/// A fully mutable byte store.
#[derive(PartialEq, Eq, Clone, Hash, Debug)]
pub struct Ram(Vec<u8>);

impl Ram {
    /// A RAM holding exactly `data`.
    pub fn new(data: Vec<u8>) -> (r: Ram)
        ensures
            r.mem() == data@,
            r.writable(),
    {
        Ram(data)
    }

    /// A zero-filled RAM of `size` bytes.
    pub fn zero(size: usize) -> (r: Ram)
        ensures
            r.mem().len() == size,
            forall|i: int| 0 <= i < size ==> r.mem()[i] == 0,
            r.writable(),
    {
        let mut data: Vec<u8> = Vec::new();
        while data.len() < size
            invariant
                data.len() <= size,
                forall|i: int| 0 <= i < data.len() ==> data@[i] == 0,
            decreases size - data.len(),
        {
            data.push(0);
        }
        Ram(data)
    }

    /// A RAM of `size` bytes all holding one byte drawn at random.
    pub fn rand(size: usize) -> (r: Ram)
        ensures
            r.mem().len() == size,
            forall|i: int, j: int|
                0 <= i < size && 0 <= j < size ==> r.mem()[i] == r.mem()[j],
            r.writable(),
    {
        let drawn: [u8; 16] = crate::random_bytes();
        let fill: u8 = drawn[0];
        let mut data: Vec<u8> = Vec::new();
        while data.len() < size
            invariant
                data.len() <= size,
                forall|i: int| 0 <= i < data.len() ==> data@[i] == fill,
            decreases size - data.len(),
        {
            data.push(fill);
        }
        Ram(data)
    }
}

impl Addressable for Ram {
    closed spec fn mem(&self) -> Seq<u8> {
        self.0@
    }

    closed spec fn writable(&self) -> bool {
        true
    }

    fn read_byte(&self, addr: u16) -> (r: u8)
        ensures
            r == bus_read(self.mem(), addr),
    {
        if (addr as usize) < self.0.len() {
            self.0[addr as usize]
        } else {
            0
        }
    }

    fn write_byte(&mut self, addr: u16, val: u8)
        ensures
            final(self).mem() == bus_write(old(self).mem(), addr, val, old(self).writable()),
            final(self).writable() == old(self).writable(),
    {
        if (addr as usize) < self.0.len() {
            self.0[addr as usize] = val;
        }
    }
}

/// A write-protected byte store: reads behave as RAM's, writes are ignored.
#[derive(PartialEq, Eq, Clone, Hash, Debug)]
pub struct Rom(Vec<u8>);

impl Rom {
    /// A ROM holding exactly `data`.
    pub fn new(data: Vec<u8>) -> (r: Rom)
        ensures
            r.mem() == data@,
            !r.writable(),
    {
        Rom(data)
    }
}

impl Addressable for Rom {
    closed spec fn mem(&self) -> Seq<u8> {
        self.0@
    }

    closed spec fn writable(&self) -> bool {
        false
    }

    fn read_byte(&self, addr: u16) -> (r: u8)
        ensures
            r == bus_read(self.mem(), addr),
    {
        if (addr as usize) < self.0.len() {
            self.0[addr as usize]
        } else {
            0
        }
    }

    fn write_byte(&mut self, _addr: u16, _val: u8)
        ensures
            final(self).mem() == bus_write(old(self).mem(), _addr, _val, old(self).writable()),
            final(self).writable() == old(self).writable(),
    {
    }
}

} // verus!
