use vstd::prelude::*;

use vstd::cell::invcell::InvCell;
use vstd::predicate::Predicate;

use crate::traits::MemManage;
use crate::traits::MemRead;
use crate::traits::MemWrite;

verus! {

/// Admits every position of the value queue.
pub struct AnyPosition;

impl Predicate<usize> for AnyPosition {
    open spec fn predicate(&self, v: usize) -> bool {
        true
    }
}

/// A memory for exercising a CPU: reads hand out the given values in order,
/// whatever the address, then zeros; writes are ignored.
pub struct TestMemory {
    read_values: Vec<u8>,
    current_index: InvCell<usize, AnyPosition>,
}

impl TestMemory {
    /// The values that reads hand out, in order.
    pub closed spec fn values(&self) -> Seq<u8> {
        self.read_values@
    }

    pub fn new(read_values: Vec<u8>) -> (memory: Self)
        ensures
            memory.values() == read_values@,
    {
        Self { read_values, current_index: InvCell::new(0, Ghost(AnyPosition)) }
    }
}

impl Default for TestMemory {
    fn default() -> (memory: Self)
        ensures
            memory.values() == Seq::<u8>::empty(),
    {
        TestMemory::new(Vec::new())
    }
}

impl MemRead for TestMemory {
    open spec fn readable(&self) -> bool {
        true
    }

    /// A read gives one of the queued values, or zero once they have run out. How
    /// far the queue has been read is kept in a cell that contracts do not see.
    open spec fn reads(&self, address: usize, value: u8) -> bool {
        value == 0 || self.values().contains(value)
    }

    fn read_byte(&self, address: usize) -> (value: u8) {
        let current_index = self.current_index.get();
        if current_index < self.read_values.len() {
            let value = self.read_values[current_index];
            self.current_index.set(current_index + 1);
            assert(self.values()[current_index as int] == value);
            value
        } else {
            0x00
        }
    }
}

impl MemWrite for TestMemory {
    open spec fn writable(&self) -> bool {
        true
    }

    open spec fn writes(self, address: usize, value: u8, after: Self) -> bool {
        after == self
    }

    fn write_byte(&mut self, address: usize, value: u8) {
    }
}

impl MemManage for TestMemory {
    open spec fn lower_rom_switched(self, enable: bool, after: Self) -> bool {
        after == self
    }

    open spec fn upper_rom_switched(self, enable: bool, after: Self) -> bool {
        after == self
    }

    open spec fn upper_rom_selected(self, upper_rom_nr: u8, after: Self) -> bool {
        after == self
    }

    open spec fn ram_read_switched(self, force: bool, after: Self) -> bool {
        after == self
    }

    fn enable_lower_rom(&mut self, enable: bool) {
    }

    fn enable_upper_rom(&mut self, enable: bool) {
    }

    fn select_upper_rom(&mut self, upper_rom_nr: u8) {
    }

    fn force_ram_read(&mut self, force: bool) {
    }
}

} // verus!
