use vstd::prelude::*;

use crate::bits::is_pow2;
use crate::bits::lemma_mask_is_mod;
use crate::clock::MasterClockTick;
use crate::traits::MemRead;

verus! {

/// A read-only memory image. Addresses wrap around its size, a power of two.
pub struct Rom {
    data: Vec<u8>,
    address_mask: usize,
    master_clock: MasterClockTick,
}

/// A snapshot of a ROM's contents for a debugger.
pub struct RomDebugView {
    pub data: Vec<u8>,
}

impl Rom {
    /// The bytes of the image.
    pub closed spec fn bytes(&self) -> Seq<u8> {
        self.data@
    }

    /// The mask that reduces an address into the image.
    pub closed spec fn mask(&self) -> usize {
        self.address_mask
    }

    /// The master clock tick that the ROM last stepped to.
    pub closed spec fn clock(&self) -> MasterClockTick {
        self.master_clock
    }

    /// The image's size is a power of two and the mask is that size less one.
    pub open spec fn wf(&self) -> bool {
        &&& is_pow2(self.bytes().len() as int)
        &&& self.mask() == self.bytes().len() - 1
    }

    /// The byte that a read of `address` gives.
    pub open spec fn byte_at(&self, address: usize) -> u8 {
        self.bytes()[(address as int) % (self.bytes().len() as int)]
    }

    pub fn step(&mut self, master_clock: MasterClockTick)
        ensures
            final(self).bytes() == old(self).bytes(),
            final(self).mask() == old(self).mask(),
            final(self).clock() == master_clock,
    {
        self.master_clock = master_clock;
    }

    pub fn from_bytes(bytes: &[u8]) -> (rom: Rom)
        requires
            is_pow2(bytes@.len() as int),
        ensures
            rom.wf(),
            rom.bytes() == bytes@,
            rom.clock().ticks == 0,
    {
        let data = vstd::slice::slice_to_vec(bytes);
        proof {
            lemma_mask_is_mod(0, data.len());
        }
        let address_mask = data.len() - 1;
        let master_clock = MasterClockTick::default();
        Rom { data, address_mask, master_clock }
    }

    pub fn address_mask(&self) -> (mask: usize)
        ensures
            mask == self.mask(),
    {
        self.address_mask
    }

    pub fn master_clock(&self) -> (tick: MasterClockTick)
        ensures
            tick == self.clock(),
    {
        self.master_clock
    }

    pub fn debug_view(&self) -> (view: RomDebugView)
        ensures
            view.data@ == self.bytes(),
    {
        let data = self.data.clone();
        assert(data@ =~= self.data@);
        RomDebugView { data }
    }
}

/// Every upper ROM is a well-formed image.
pub open spec fn upper_roms_wf(upper_roms: Map<u8, Rom>) -> bool {
    forall|k: u8| #[trigger] upper_roms.contains_key(k) ==> upper_roms[k].wf()
}

impl MemRead for Rom {
    open spec fn readable(&self) -> bool {
        self.wf()
    }

    open spec fn reads(&self, address: usize, value: u8) -> bool {
        value == self.byte_at(address)
    }

    fn read_byte(&self, address: usize) -> (value: u8) {
        proof {
            lemma_mask_is_mod(address, self.data.len());
        }
        let address = address & self.address_mask;
        self.data[address]
    }
}

} // verus!
