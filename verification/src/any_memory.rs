use vstd::prelude::*;

use crate::cpc6128::MemoryCpc6128;
use crate::cpc_x64::MemoryCpcX64;
use crate::debug_view::MemoryDebugView;
use crate::traits::high_byte;
use crate::traits::low_byte;
use crate::traits::MemManage;
use crate::traits::MemRead;
use crate::traits::MemWrite;

verus! {

/// The memory of any of the emulated models.
pub enum AnyMemory {
    CpcX64(MemoryCpcX64),
    Cpc6128(MemoryCpc6128),
}

impl AnyMemory {
    pub open spec fn wf(&self) -> bool {
        match self {
            AnyMemory::CpcX64(memory) => memory.wf(),
            AnyMemory::Cpc6128(memory) => memory.wf(),
        }
    }

    /// The byte that the CPU reads at `address`.
    pub open spec fn byte_at(&self, address: usize) -> u8 {
        match self {
            AnyMemory::CpcX64(memory) => memory.byte_at(address),
            AnyMemory::Cpc6128(memory) => memory.byte_at(address),
        }
    }

    pub fn debug_view(&self) -> (view: MemoryDebugView)
        requires
            match self {
                AnyMemory::CpcX64(memory) => memory.snapshot_ready(),
                AnyMemory::Cpc6128(memory) => memory.snapshot_ready(),
            },
        ensures
            match self {
                AnyMemory::CpcX64(memory) => memory.shows(view),
                AnyMemory::Cpc6128(memory) => memory.shows(view),
            },
    {
        match self {
            AnyMemory::CpcX64(memory) => memory.debug_view(),
            AnyMemory::Cpc6128(memory) => memory.debug_view(),
        }
    }
}

impl MemRead for AnyMemory {
    open spec fn readable(&self) -> bool {
        self.wf()
    }

    open spec fn reads(&self, address: usize, value: u8) -> bool {
        value == self.byte_at(address)
    }

    fn read_byte(&self, address: usize) -> (value: u8) {
        match self {
            AnyMemory::CpcX64(memory) => memory.read_byte(address),
            AnyMemory::Cpc6128(memory) => memory.read_byte(address),
        }
    }

    fn read_word(&self, address: usize) -> (word: u16) {
        match self {
            AnyMemory::CpcX64(memory) => {
                let word = memory.read_word(address);
                assert(self.reads(address, memory.byte_at(address)));
                assert(self.reads((address + 1) as usize, memory.byte_at((address + 1) as usize)));
                word
            },
            AnyMemory::Cpc6128(memory) => {
                let word = memory.read_word(address);
                assert(self.reads(address, memory.byte_at(address)));
                assert(self.reads((address + 1) as usize, memory.byte_at((address + 1) as usize)));
                word
            },
        }
    }
}

impl MemWrite for AnyMemory {
    open spec fn writable(&self) -> bool {
        self.wf()
    }

    open spec fn writes(self, address: usize, value: u8, after: Self) -> bool {
        match (self, after) {
            (AnyMemory::CpcX64(before), AnyMemory::CpcX64(after)) => before.writes(
                address,
                value,
                after,
            ),
            (AnyMemory::Cpc6128(before), AnyMemory::Cpc6128(after)) => before.writes(
                address,
                value,
                after,
            ),
            _ => false,
        }
    }

    fn write_byte(&mut self, address: usize, value: u8) {
        match self {
            AnyMemory::CpcX64(memory) => memory.write_byte(address, value),
            AnyMemory::Cpc6128(memory) => memory.write_byte(address, value),
        }
    }

    fn write_word(&mut self, address: usize, value: u16) {
        match self {
            AnyMemory::CpcX64(memory) => {
                let ghost before = *memory;
                memory.write_word(address, value);
                proof {
                    let mid = choose|mid: MemoryCpcX64|
                        #![trigger before.writes(address, low_byte(value), mid)]
                        before.writes(address, low_byte(value), mid) && mid.writes(
                            (address + 1) as usize,
                            high_byte(value),
                            *memory,
                        );
                    assert(old(self).writes(address, low_byte(value), AnyMemory::CpcX64(mid)));
                }
            },
            AnyMemory::Cpc6128(memory) => {
                let ghost before = *memory;
                memory.write_word(address, value);
                proof {
                    let mid = choose|mid: MemoryCpc6128|
                        #![trigger before.writes(address, low_byte(value), mid)]
                        before.writes(address, low_byte(value), mid) && mid.writes(
                            (address + 1) as usize,
                            high_byte(value),
                            *memory,
                        );
                    assert(old(self).writes(address, low_byte(value), AnyMemory::Cpc6128(mid)));
                }
            },
        }
    }
}

impl MemManage for AnyMemory {
    open spec fn lower_rom_switched(self, enable: bool, after: Self) -> bool {
        match (self, after) {
            (AnyMemory::CpcX64(before), AnyMemory::CpcX64(after)) => before.lower_rom_switched(enable, after),
            (AnyMemory::Cpc6128(before), AnyMemory::Cpc6128(after)) => before.lower_rom_switched(enable, after),
            _ => false,
        }
    }

    open spec fn upper_rom_switched(self, enable: bool, after: Self) -> bool {
        match (self, after) {
            (AnyMemory::CpcX64(before), AnyMemory::CpcX64(after)) => before.upper_rom_switched(enable, after),
            (AnyMemory::Cpc6128(before), AnyMemory::Cpc6128(after)) => before.upper_rom_switched(enable, after),
            _ => false,
        }
    }

    open spec fn upper_rom_selected(self, upper_rom_nr: u8, after: Self) -> bool {
        match (self, after) {
            (AnyMemory::CpcX64(before), AnyMemory::CpcX64(after)) => before.upper_rom_selected(upper_rom_nr, after),
            (AnyMemory::Cpc6128(before), AnyMemory::Cpc6128(after)) => before.upper_rom_selected(upper_rom_nr, after),
            _ => false,
        }
    }

    open spec fn ram_read_switched(self, force: bool, after: Self) -> bool {
        match (self, after) {
            (AnyMemory::CpcX64(before), AnyMemory::CpcX64(after)) => before.ram_read_switched(force, after),
            (AnyMemory::Cpc6128(before), AnyMemory::Cpc6128(after)) => before.ram_read_switched(force, after),
            _ => false,
        }
    }

    fn enable_lower_rom(&mut self, enable: bool) {
        match self {
            AnyMemory::CpcX64(memory) => memory.enable_lower_rom(enable),
            AnyMemory::Cpc6128(memory) => memory.enable_lower_rom(enable),
        }
    }

    fn enable_upper_rom(&mut self, enable: bool) {
        match self {
            AnyMemory::CpcX64(memory) => memory.enable_upper_rom(enable),
            AnyMemory::Cpc6128(memory) => memory.enable_upper_rom(enable),
        }
    }

    fn select_upper_rom(&mut self, upper_rom_nr: u8) {
        match self {
            AnyMemory::CpcX64(memory) => memory.select_upper_rom(upper_rom_nr),
            AnyMemory::Cpc6128(memory) => memory.select_upper_rom(upper_rom_nr),
        }
    }

    fn force_ram_read(&mut self, force: bool) {
        match self {
            AnyMemory::CpcX64(memory) => memory.force_ram_read(force),
            AnyMemory::Cpc6128(memory) => memory.force_ram_read(force),
        }
    }

    /// Only the 6128 has RAM configurations; the 464 and 664 ignore the call.
    fn set_ram_config(&mut self, config: u8)
        ensures
            match (*old(self), *final(self)) {
                (AnyMemory::CpcX64(before), AnyMemory::CpcX64(after)) => after == before,
                (AnyMemory::Cpc6128(before), AnyMemory::Cpc6128(after)) => after == (MemoryCpc6128 {
                    ram_config: config % 8,
                    ..before
                }),
                _ => false,
            },
    {
        match self {
            AnyMemory::CpcX64(memory) => memory.set_ram_config(config),
            AnyMemory::Cpc6128(memory) => memory.set_ram_config(config),
        }
    }
}

} // verus!
