use vstd::prelude::*;

use crate::bits::is_pow2;
use crate::bits::lemma_mask_is_mod;
use crate::clock::MasterClockTick;
use crate::traits::MemManage;
use crate::traits::MemRead;
use crate::traits::MemWrite;

verus! {

/// Random-access memory. Addresses wrap around its size, a power of two.
pub struct Ram {
    data: Vec<u8>,
    address_mask: usize,
    master_clock: MasterClockTick,
}

/// A snapshot of a RAM's contents for a debugger.
pub struct RamDebugView {
    pub data: Vec<u8>,
}

/// `size` zero bytes: the contents of RAM at power-on.
pub open spec fn zeroed(size: nat) -> Seq<u8> {
    Seq::new(size, |i: int| 0u8)
}

/// The contents of `mem` after writing `bytes` one by one, the `i`-th at
/// `offset + i`, each address wrapping around the size of `mem`.
pub open spec fn load_at(mem: Seq<u8>, bytes: Seq<u8>, offset: int) -> Seq<u8>
    decreases bytes.len(),
{
    if bytes.len() == 0 {
        mem
    } else {
        let last = bytes.len() - 1;
        load_at(mem, bytes.drop_last(), offset).update((offset + last) % (mem.len() as int), bytes.last())
    }
}

impl Ram {
    /// The bytes of the memory.
    pub closed spec fn bytes(&self) -> Seq<u8> {
        self.data@
    }

    /// The mask that reduces an address into the memory.
    pub closed spec fn mask(&self) -> usize {
        self.address_mask
    }

    /// The master clock tick that the RAM last stepped to.
    pub closed spec fn clock(&self) -> MasterClockTick {
        self.master_clock
    }

    /// The size is a power of two and the mask is that size less one.
    pub open spec fn wf(&self) -> bool {
        &&& is_pow2(self.bytes().len() as int)
        &&& self.mask() == self.bytes().len() - 1
    }

    /// The index into the memory that `address` reaches.
    pub open spec fn index_of(&self, address: usize) -> int {
        (address as int) % (self.bytes().len() as int)
    }

    /// The byte that a read of `address` gives.
    pub open spec fn byte_at(&self, address: usize) -> u8 {
        self.bytes()[self.index_of(address)]
    }

    pub fn new(size: usize) -> (ram: Ram)
        requires
            is_pow2(size as int),
        ensures
            ram.wf(),
            ram.bytes() == zeroed(size as nat),
            ram.clock().ticks == 0,
    {
        let data = vec![0u8; size];
        proof {
            lemma_mask_is_mod(0, size);
        }
        assert(data@ =~= zeroed(size as nat));
        let address_mask = data.len() - 1;
        let master_clock = MasterClockTick::default();
        Ram { data, address_mask, master_clock }
    }

    /// A RAM of `size` bytes holding `bytes` from `offset` on, in address order.
    pub fn from_bytes(size: usize, bytes: &[u8], offset: usize) -> (ram: Ram)
        requires
            is_pow2(size as int),
            bytes@.len() == 0 || offset + bytes@.len() - 1 <= usize::MAX,
        ensures
            ram.wf(),
            ram.bytes() == load_at(zeroed(size as nat), bytes@, offset as int),
            ram.clock().ticks == 0,
    {
        let mut ram = Ram::new(size);
        let mut i: usize = 0;
        while i < bytes.len()
            invariant
                0 <= i <= bytes@.len(),
                bytes@.len() == 0 || offset + bytes@.len() - 1 <= usize::MAX,
                ram.wf(),
                ram.bytes().len() == size,
                ram.bytes() == load_at(zeroed(size as nat), bytes@.take(i as int), offset as int),
                ram.clock().ticks == 0,
            decreases bytes@.len() - i,
        {
            assert(bytes@.take(i + 1).drop_last() =~= bytes@.take(i as int));
            ram.write_byte(offset + i, bytes[i]);
            i = i + 1;
        }
        assert(bytes@.take(bytes@.len() as int) =~= bytes@);
        ram
    }

    pub fn step(&mut self, master_clock: MasterClockTick)
        ensures
            final(self).bytes() == old(self).bytes(),
            final(self).mask() == old(self).mask(),
            final(self).clock() == master_clock,
    {
        self.master_clock = master_clock;
    }

    pub fn address_mask(&self) -> (mask: usize)
        ensures
            mask == self.mask(),
    {
        self.address_mask
    }

    pub fn master_clock(&self) -> (tick: MasterClockTick)
        ensures
            tick == self.clock(),
    {
        self.master_clock
    }

    pub fn debug_view(&self) -> (view: RamDebugView)
        ensures
            view.data@ == self.bytes(),
    {
        let data = self.data.clone();
        assert(data@ =~= self.data@);
        RamDebugView { data }
    }
}

impl MemRead for Ram {
    open spec fn readable(&self) -> bool {
        self.wf()
    }

    open spec fn reads(&self, address: usize, value: u8) -> bool {
        value == self.byte_at(address)
    }

    fn read_byte(&self, address: usize) -> (value: u8) {
        proof {
            lemma_mask_is_mod(address, self.data.len());
        }
        let address = address & self.address_mask;
        self.data[address]
    }
}

impl MemWrite for Ram {
    open spec fn writable(&self) -> bool {
        self.wf()
    }

    open spec fn writes(self, address: usize, value: u8, after: Self) -> bool {
        &&& after.bytes() == self.bytes().update(self.index_of(address), value)
        &&& after.mask() == self.mask()
        &&& after.clock() == self.clock()
    }

    fn write_byte(&mut self, address: usize, value: u8) {
        proof {
            lemma_mask_is_mod(address, self.data.len());
        }
        let address = address & self.address_mask;
        self.data.set(address, value);
    }
}

impl MemManage for Ram {
    open spec fn lower_rom_switched(self, enable: bool, after: Self) -> bool {
        after == self
    }

    open spec fn upper_rom_switched(self, enable: bool, after: Self) -> bool {
        after == self
    }

    open spec fn upper_rom_selected(self, upper_rom_nr: u8, after: Self) -> bool {
        after == self
    }

    open spec fn ram_read_switched(self, force: bool, after: Self) -> bool {
        after == self
    }

    fn enable_lower_rom(&mut self, enable: bool) {
    }

    fn enable_upper_rom(&mut self, enable: bool) {
    }

    fn select_upper_rom(&mut self, upper_rom_nr: u8) {
    }

    fn force_ram_read(&mut self, force: bool) {
    }
}

} // verus!
