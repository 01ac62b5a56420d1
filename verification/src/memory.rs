//! The bus interface seen by the processor: one byte read or written per
//! call, plus a flat test memory.

use vstd::prelude::*;

verus! {

/// One address space of byte-wide cells. The processor performs exactly one
/// call into this trait per tick; `is_read_only` marks debugger-style peeks
/// that must not disturb read-sensitive registers.
///
/// A device carries a structural invariant that every access preserves, and
/// names in `clock_state` whatever part of itself no bus access may move;
/// the console puts its picture unit's frame position and latches there, so
/// that the master clock can rely on processor accesses never moving a
/// frame.
pub trait Memory {
    /// The structural facts every access preserves.
    spec fn inv(&self) -> bool;

    /// The part of the device no single access may move.
    spec fn clock_state(&self) -> (int, int, bool, bool, bool);

    /// The byte a read of `address` returns in this state.
    spec fn value_at(&self, address: int) -> u8;

    /// Whether `address` is an ordinary writable cell: one whose byte a
    /// write replaces. Register windows and read-only banks are not plain.
    spec fn plain(&self, address: int) -> bool;

    /// The storage two addresses share: mirrored addresses name the same
    /// cell, so a write at one is seen at the other. Two plain addresses
    /// read the same storage exactly when their cells agree.
    spec fn cell(&self, address: int) -> int;

    fn read(&mut self, address: usize, is_read_only: bool) -> (r: u8)
        requires
            old(self).inv(),
        ensures
            final(self).inv(),
            final(self).clock_state() == old(self).clock_state(),
            r == old(self).value_at(address as int),
            forall|b: int| final(self).plain(b) == old(self).plain(b),
            forall|b: int| final(self).cell(b) == old(self).cell(b),
            forall|b: int|
                old(self).plain(b) ==> final(self).value_at(b) == old(self).value_at(b),
    ;

    fn write(&mut self, address: usize, value: u8)
        requires
            old(self).inv(),
        ensures
            final(self).inv(),
            final(self).clock_state() == old(self).clock_state(),
            forall|b: int| final(self).plain(b) == old(self).plain(b),
            forall|b: int| final(self).cell(b) == old(self).cell(b),
            old(self).plain(address as int) ==> final(self).value_at(address as int) == value,
            forall|b: int|
                old(self).plain(b) && old(self).cell(b) != old(self).cell(address as int)
                    ==> final(self).value_at(b) == old(self).value_at(b),
    ;
}

/// A flat 64 KiB memory: every address is an ordinary cell. It stands in
/// for the console fabric when the processor is exercised on its own.
pub struct RAM {
    /// The cells.
    pub ram: Vec<u8>,
}

impl RAM {
    /// A zeroed flat memory.
    pub fn new() -> (r: RAM)
        ensures
            r.inv(),
            forall|i: int| 0 <= i < 0x10000 ==> r.ram@[i] == 0,
    {
        RAM { ram: crate::cartridge::zero_vec(0x10000) }
    }
}

impl Memory for RAM {
    open spec fn inv(&self) -> bool {
        self.ram@.len() == 0x10000
    }

    open spec fn clock_state(&self) -> (int, int, bool, bool, bool) {
        (0, 0, false, false, false)
    }

    open spec fn value_at(&self, address: int) -> u8 {
        if 0 <= address < 0x10000 {
            self.ram@[address]
        } else {
            0
        }
    }

    open spec fn plain(&self, address: int) -> bool {
        0 <= address < 0x10000
    }

    open spec fn cell(&self, address: int) -> int {
        address
    }

    fn read(&mut self, address: usize, is_read_only: bool) -> (r: u8)
        ensures
            address < 0x10000 ==> r == old(self).ram@[address as int],
            *final(self) == *old(self),
    {
        if address < 0x10000 {
            self.ram[address]
        } else {
            0
        }
    }

    fn write(&mut self, address: usize, value: u8)
        ensures
            address < 0x10000 ==> final(self).ram@ == old(self).ram@.update(
                address as int,
                value,
            ),
            address >= 0x10000 ==> final(self).ram@ == old(self).ram@,
    {
        if address < 0x10000 {
            self.ram.set(address, value);
        }
    }
}

} // verus!
