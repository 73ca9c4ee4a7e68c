//! The memory bus: 64 KiB, one byte per 16-bit address.
//!
//! The processor knows memory only as something to read a byte from and
//! write a byte to. What stands behind an address (RAM, a mirror of it, a
//! device register, a cartridge) is the business of whoever fills the bus.

use vstd::prelude::*;

verus! {

/// First address of page zero.
pub const ZERO_PAGE_START: u16 = 0x00;

/// First address of the stack page. The stack pointer is an offset from it.
pub const STACK_TOP: u16 = 0x100;

/// Number of addresses on the bus.
pub const BUS_SIZE: usize = 0x10000;

/// What every byte holds at power-on.
pub const POWER_ON_BYTE: u8 = 0xFF;

pub struct Memory {
    ram: Box<[u8; 65536]>,
}

impl View for Memory {
    type V = Seq<u8>;

    /// The bytes on the bus, indexed by address.
    closed spec fn view(&self) -> Seq<u8> {
        self.ram@
    }
}

impl Memory {
    /// Memory as it is at power-on: every byte `0xFF`.
    pub fn new() -> (mem: Memory)
        ensures
            mem@.len() == BUS_SIZE,
            forall|addr: int| 0 <= addr < BUS_SIZE ==> mem@[addr] == POWER_ON_BYTE,
    {
        Memory { ram: Box::new([POWER_ON_BYTE;65536]) }
    }

    /// The byte at `addr`.
    pub fn ram_read(&self, addr: u16) -> (data: u8)
        ensures
            self@.len() == BUS_SIZE,
            data == self@[addr as int],
    {
        self.ram[addr as usize]
    }

    /// Stores `data` at `addr` and leaves every other byte alone.
    pub fn ram_write(&mut self, addr: u16, data: u8)
        ensures
            final(self)@.len() == BUS_SIZE,
            final(self)@ == old(self)@.update(addr as int, data),
    {
        self.ram[addr as usize] = data;
    }

    /// Every address has a byte behind it.
    pub proof fn lemma_len(&self)
        ensures
            self@.len() == BUS_SIZE,
    {
    }
}

} // verus!
