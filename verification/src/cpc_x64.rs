use std::collections::HashMap;
use vstd::prelude::*;

use crate::bits::is_pow2;
use crate::bits::lemma_memory_sizes_are_pow2;
use crate::debug_view::compose_roms;
use crate::debug_view::images_view;
use crate::debug_view::lemma_selected_image;
use crate::debug_view::rom_images;
use crate::debug_view::roms_over;
use crate::debug_view::upper_rom_images;
use crate::debug_view::MemoryDebugView;
use crate::ram::zeroed;
use crate::ram::Ram;
use crate::rom::upper_roms_wf;
use crate::rom::Rom;
use crate::roms::CpcModel;
use crate::roms::RomImages;
use crate::roms::ROM_SIZE;
use crate::traits::MemManage;
use crate::traits::MemRead;
use crate::traits::MemWrite;

verus! {

broadcast use vstd::std_specs::hash::group_hash_axioms;

/// The memory of the CPC 464 and 664: 64K of RAM, the lower (OS) ROM over
/// 0x0000-0x3FFF and a selectable upper ROM over 0xC000-0xFFFF.
pub struct MemoryCpcX64 {
    pub ram: Ram,
    pub lower_rom: Rom,
    pub lower_rom_enabled: bool,
    pub upper_roms: HashMap<u8, Rom>,
    pub selected_upper_rom: u8,
    pub upper_rom_enabled: bool,
    pub ram_read_forced: bool,
}

impl MemoryCpcX64 {
    /// 64K of RAM and well-formed ROM images.
    pub open spec fn wf(&self) -> bool {
        &&& self.ram.wf()
        &&& self.ram.bytes().len() == 0x10000
        &&& self.lower_rom.wf()
        &&& upper_roms_wf(self.upper_roms@)
    }

    /// A snapshot can be taken: the RAM has its size, and each ROM that the
    /// snapshot lays over the 64K (the enabled lower ROM, and the enabled and
    /// present selected upper ROM) is 16K.
    pub open spec fn snapshot_ready(&self) -> bool {
        &&& self.ram.bytes().len() == 0x10000
        &&& self.lower_rom_enabled ==> self.lower_rom.bytes().len() == ROM_SIZE
        &&& self.upper_rom_enabled && self.has_selected_upper_rom()
            ==> self.upper_roms@[self.selected_upper_rom].bytes().len() == ROM_SIZE
    }

    /// There is an upper ROM of the selected number.
    pub open spec fn has_selected_upper_rom(&self) -> bool {
        self.upper_roms@.contains_key(self.selected_upper_rom)
    }

    /// A read of `address` shows RAM: RAM reads are forced, or no enabled ROM
    /// covers the address.
    pub open spec fn reads_ram_at(&self, address: usize) -> bool {
        ||| self.ram_read_forced
        ||| {
            &&& !(self.lower_rom_enabled && address < 0x4000)
            &&& !(self.upper_rom_enabled && address >= 0xc000 && self.has_selected_upper_rom())
        }
    }

    /// The byte that the CPU reads at `address`: RAM when RAM reads are forced,
    /// else the lower ROM below 0x4000 when it is enabled, else the selected upper
    /// ROM from 0xC000 on when it is enabled and present, else RAM.
    pub open spec fn byte_at(&self, address: usize) -> u8 {
        if self.ram_read_forced {
            self.ram.byte_at(address)
        } else if self.lower_rom_enabled && address < 0x4000 {
            self.lower_rom.byte_at(address)
        } else if self.upper_rom_enabled && address >= 0xc000 {
            if self.has_selected_upper_rom() {
                self.upper_roms@[self.selected_upper_rom].byte_at((address - 0xc000) as usize)
            } else {
                self.ram.byte_at(address)
            }
        } else {
            self.ram.byte_at(address)
        }
    }

    pub fn new(model: CpcModel, roms: &RomImages) -> (memory: Self)
        requires
            is_pow2(roms.os_rom(model).len() as int),
            is_pow2(roms.basic_rom(model).len() as int),
            is_pow2(roms.amsdos@.len() as int),
        ensures
            memory.wf(),
            memory.ram.bytes() == zeroed(0x10000),
            memory.ram.clock().ticks == 0,
            memory.lower_rom.bytes() == roms.os_rom(model),
            memory.lower_rom.clock().ticks == 0,
            memory.lower_rom_enabled,
            memory.upper_roms@.dom() == set![0u8, 7u8],
            memory.upper_roms@[0].bytes() == roms.basic_rom(model),
            memory.upper_roms@[7].bytes() == roms.amsdos@,
            memory.upper_roms@[0].clock().ticks == 0,
            memory.upper_roms@[7].clock().ticks == 0,
            memory.selected_upper_rom == 0,
            memory.upper_rom_enabled,
            !memory.ram_read_forced,
    {
        proof {
            lemma_memory_sizes_are_pow2();
        }
        let (lower_rom, basic_rom): (&[u8], &[u8]) = match model {
            CpcModel::Cpc464 => (roms.os_464.as_slice(), roms.basic_464.as_slice()),
            CpcModel::Cpc664 => (roms.os_664.as_slice(), roms.basic_664.as_slice()),
            CpcModel::Cpc6128 => (roms.os_6128.as_slice(), roms.basic_6128.as_slice()),
        };

        let mut upper_roms = HashMap::new();
        upper_roms.insert(0, Rom::from_bytes(basic_rom));
        upper_roms.insert(7, Rom::from_bytes(roms.amsdos.as_slice()));
        assert(upper_roms@.dom() =~= set![0u8, 7u8]);

        MemoryCpcX64 {
            ram: Ram::new(0x10000),
            lower_rom: Rom::from_bytes(lower_rom),
            lower_rom_enabled: true,
            upper_roms,
            selected_upper_rom: 0,
            upper_rom_enabled: true,
            ram_read_forced: false,
        }
    }
}

impl MemoryCpcX64 {
    /// The 64K that the CPU sees when RAM reads are not forced.
    pub open spec fn composite_rom_ram(&self) -> Seq<u8> {
        roms_over(
            self.ram.bytes(),
            self.lower_rom_enabled,
            self.lower_rom.bytes(),
            self.upper_rom_enabled,
            rom_images(self.upper_roms@),
            self.selected_upper_rom,
        )
    }

    /// `view` is a snapshot of this memory: its RAM (there is no expansion RAM),
    /// its ROMs and their switches, and the 64K that the CPU sees.
    pub open spec fn shows(&self, view: MemoryDebugView) -> bool {
        &&& view.ram@ == self.ram.bytes()
        &&& view.ram_extension@ == Seq::<u8>::empty()
        &&& view.lower_rom@ == self.lower_rom.bytes()
        &&& view.lower_rom_enabled == self.lower_rom_enabled
        &&& images_view(view.upper_roms@) == rom_images(self.upper_roms@)
        &&& view.selected_upper_rom == self.selected_upper_rom
        &&& view.upper_rom_enabled == self.upper_rom_enabled
        &&& view.composite_ram@ == self.ram.bytes()
        &&& view.composite_rom_ram@ == self.composite_rom_ram()
    }

    pub fn debug_view(&self) -> (view: MemoryDebugView)
        requires
            self.snapshot_ready(),
        ensures
            self.shows(view),
    {
        let upper_roms = upper_rom_images(&self.upper_roms);
        let ram = self.ram.debug_view().data;
        let ram_extension: Vec<u8> = Vec::new();
        let lower_rom = self.lower_rom.debug_view().data;
        let lower_rom_enabled = self.lower_rom_enabled;
        let selected_upper_rom = self.selected_upper_rom;
        let upper_rom_enabled = self.upper_rom_enabled;

        // The composite RAM is the RAM itself: there is no expansion RAM to bank in.
        let composite_ram = ram.clone();
        assert(composite_ram@ =~= ram@);

        proof {
            lemma_selected_image(upper_roms@, self.upper_roms@, selected_upper_rom);
        }
        let composite_rom_ram = compose_roms(
            &composite_ram,
            lower_rom_enabled,
            &lower_rom,
            upper_rom_enabled,
            &upper_roms,
            selected_upper_rom,
        );

        MemoryDebugView {
            ram,
            ram_extension,
            lower_rom,
            lower_rom_enabled,
            upper_roms,
            selected_upper_rom,
            upper_rom_enabled,
            composite_rom_ram,
            composite_ram,
        }
    }
}

impl MemRead for MemoryCpcX64 {
    open spec fn readable(&self) -> bool {
        self.wf()
    }

    open spec fn reads(&self, address: usize, value: u8) -> bool {
        value == self.byte_at(address)
    }

    fn read_byte(&self, address: usize) -> (value: u8) {
        if self.ram_read_forced {
            return self.ram.read_byte(address);
        }
        if self.lower_rom_enabled && address < 0x4000 {
            return self.lower_rom.read_byte(address);
        }
        if self.upper_rom_enabled && address >= 0xc000 {
            match self.upper_roms.get(&self.selected_upper_rom) {
                Some(upper_rom) => {
                    return upper_rom.read_byte(address - 0xc000);
                },
                None => {
                    return self.ram.read_byte(address);
                },
            }
        }
        self.ram.read_byte(address)
    }
}

impl MemWrite for MemoryCpcX64 {
    open spec fn writable(&self) -> bool {
        self.wf()
    }

    /// Writes always go to RAM, whatever ROM is enabled over the address.
    open spec fn writes(self, address: usize, value: u8, after: Self) -> bool {
        &&& self.ram.writes(address, value, after.ram)
        &&& after.lower_rom == self.lower_rom
        &&& after.lower_rom_enabled == self.lower_rom_enabled
        &&& after.upper_roms == self.upper_roms
        &&& after.selected_upper_rom == self.selected_upper_rom
        &&& after.upper_rom_enabled == self.upper_rom_enabled
        &&& after.ram_read_forced == self.ram_read_forced
    }

    fn write_byte(&mut self, address: usize, value: u8) {
        self.ram.write_byte(address, value);
    }
}

impl MemManage for MemoryCpcX64 {
    open spec fn lower_rom_switched(self, enable: bool, after: Self) -> bool {
        after == (MemoryCpcX64 { lower_rom_enabled: enable, ..self })
    }

    open spec fn upper_rom_switched(self, enable: bool, after: Self) -> bool {
        after == (MemoryCpcX64 { upper_rom_enabled: enable, ..self })
    }

    open spec fn upper_rom_selected(self, upper_rom_nr: u8, after: Self) -> bool {
        after == (MemoryCpcX64 { selected_upper_rom: upper_rom_nr, ..self })
    }

    open spec fn ram_read_switched(self, force: bool, after: Self) -> bool {
        after == (MemoryCpcX64 { ram_read_forced: force, ..self })
    }

    fn enable_lower_rom(&mut self, enable: bool) {
        self.lower_rom_enabled = enable;
    }

    fn enable_upper_rom(&mut self, enable: bool) {
        self.upper_rom_enabled = enable;
    }

    fn select_upper_rom(&mut self, upper_rom_nr: u8) {
        self.selected_upper_rom = upper_rom_nr;
    }

    fn force_ram_read(&mut self, force: bool) {
        self.ram_read_forced = force;
    }
}

} // verus!
