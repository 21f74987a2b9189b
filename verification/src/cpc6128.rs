use std::collections::HashMap;
use vstd::prelude::*;

use crate::bits::is_pow2;
use crate::bits::lemma_memory_sizes_are_pow2;
use crate::debug_view::compose_roms;
use crate::debug_view::images_view;
use crate::debug_view::lemma_selected_image;
use crate::debug_view::overlay;
use crate::debug_view::rom_images;
use crate::debug_view::roms_over;
use crate::debug_view::upper_rom_images;
use crate::debug_view::MemoryDebugView;
use crate::ram::zeroed;
use crate::ram::Ram;
use crate::rom::upper_roms_wf;
use crate::rom::Rom;
use crate::roms::RomImages;
use crate::roms::ROM_SIZE;
use crate::traits::MemManage;
use crate::traits::MemRead;
use crate::traits::MemWrite;

verus! {

broadcast use vstd::std_specs::hash::group_hash_axioms;

/// The size of one RAM bank, and of each of the four 16K slots the CPU sees.
pub const RAM_BANK_SIZE: usize = 0x4000;

/// For each of the eight RAM configurations, the physical 16K bank that each
/// CPU slot shows (slot 0 = 0x0000-0x3FFF, slot 1 = 0x4000-0x7FFF,
/// slot 2 = 0x8000-0xBFFF, slot 3 = 0xC000-0xFFFF).
pub open spec fn ram_config_table() -> Seq<Seq<int>> {
    seq![
        seq![0, 1, 2, 3],
        seq![0, 1, 2, 7],
        seq![4, 5, 6, 7],
        seq![0, 3, 2, 7],
        seq![0, 4, 2, 3],
        seq![0, 5, 2, 3],
        seq![0, 6, 2, 3],
        seq![0, 7, 2, 3],
    ]
}

/// The bank that `slot` shows under RAM configuration `config`.
pub open spec fn bank_of(config: int, slot: int) -> int {
    ram_config_table()[config][slot]
}

/// The 16K slot that a CPU address falls in (the address taken modulo 64K).
pub open spec fn slot_of(address: int) -> int {
    (address / (RAM_BANK_SIZE as int)) % 4
}

/// The offset of a CPU address within its slot.
pub open spec fn offset_of(address: int) -> int {
    address % (RAM_BANK_SIZE as int)
}

/// The physical RAM address that a CPU address reaches under `config`.
pub open spec fn physical_address(config: int, address: int) -> int {
    bank_of(config, slot_of(address)) * (RAM_BANK_SIZE as int) + offset_of(address)
}

/// An address inside a slot lies in that slot, at its offset.
pub proof fn lemma_slot_and_offset(slot: int, offset: int)
    requires
        0 <= slot < 4,
        0 <= offset < RAM_BANK_SIZE,
    ensures
        slot_of(slot * (RAM_BANK_SIZE as int) + offset) == slot,
        offset_of(slot * (RAM_BANK_SIZE as int) + offset) == offset,
{
}

/// The bank of the configuration table, looked up.
fn ram_bank(config: u8, slot: usize) -> (bank: usize)
    requires
        config < 8,
        slot < 4,
    ensures
        bank == bank_of(config as int, slot as int),
        bank < 8,
{
    let row: [usize; 4] = match config {
        0 => [0, 1, 2, 3],
        1 => [0, 1, 2, 7],
        2 => [4, 5, 6, 7],
        3 => [0, 3, 2, 7],
        4 => [0, 4, 2, 3],
        5 => [0, 5, 2, 3],
        6 => [0, 6, 2, 3],
        _ => [0, 7, 2, 3],
    };
    row[slot]
}

/// The memory of the CPC 6128: 128K of RAM in eight 16K banks, of which the
/// RAM configuration maps four into the CPU's 64K, under the same ROM overlays
/// as the 464 and 664.
pub struct MemoryCpc6128 {
    pub ram: Ram,
    pub lower_rom: Rom,
    pub lower_rom_enabled: bool,
    pub upper_roms: HashMap<u8, Rom>,
    pub selected_upper_rom: u8,
    pub upper_rom_enabled: bool,
    pub ram_read_forced: bool,
    pub ram_config: u8,
}

impl MemoryCpc6128 {
    /// 128K of RAM and well-formed ROM images.
    pub open spec fn wf(&self) -> bool {
        &&& self.ram.wf()
        &&& self.ram.bytes().len() == 0x20000
        &&& self.lower_rom.wf()
        &&& upper_roms_wf(self.upper_roms@)
    }

    /// A snapshot can be taken: the RAM has its size, and each ROM that the
    /// snapshot lays over the 64K (the enabled lower ROM, and the enabled and
    /// present selected upper ROM) is 16K.
    pub open spec fn snapshot_ready(&self) -> bool {
        &&& self.ram.bytes().len() == 0x20000
        &&& self.lower_rom_enabled ==> self.lower_rom.bytes().len() == ROM_SIZE
        &&& self.upper_rom_enabled && self.has_selected_upper_rom()
            ==> self.upper_roms@[self.selected_upper_rom].bytes().len() == ROM_SIZE
    }

    /// The RAM configuration in use: the low three bits of `ram_config`.
    pub open spec fn config(&self) -> int {
        (self.ram_config as int) % 8
    }

    /// The physical RAM address that a CPU address reaches.
    pub open spec fn ram_address(&self, address: usize) -> int {
        physical_address(self.config(), address as int)
    }

    /// The RAM byte that the CPU sees at `address`.
    pub open spec fn ram_byte(&self, address: usize) -> u8 {
        self.ram.bytes()[self.ram_address(address)]
    }

    /// There is an upper ROM of the selected number.
    pub open spec fn has_selected_upper_rom(&self) -> bool {
        self.upper_roms@.contains_key(self.selected_upper_rom)
    }

    /// A read of `address` shows RAM: RAM reads are forced, or no enabled ROM
    /// covers the address.
    pub open spec fn reads_ram_at(&self, address: usize) -> bool {
        ||| self.ram_read_forced
        ||| {
            &&& !(self.lower_rom_enabled && address < 0x4000)
            &&& !(self.upper_rom_enabled && address >= 0xc000 && self.has_selected_upper_rom())
        }
    }

    /// The byte that the CPU reads at `address`: banked RAM when RAM reads are
    /// forced, else the lower ROM below 0x4000 when it is enabled, else the
    /// selected upper ROM from 0xC000 on when it is enabled and present, else
    /// banked RAM.
    pub open spec fn byte_at(&self, address: usize) -> u8 {
        if self.ram_read_forced {
            self.ram_byte(address)
        } else if self.lower_rom_enabled && address < 0x4000 {
            self.lower_rom.byte_at(address)
        } else if self.upper_rom_enabled && address >= 0xc000 {
            if self.has_selected_upper_rom() {
                self.upper_roms@[self.selected_upper_rom].byte_at((address - 0xc000) as usize)
            } else {
                self.ram_byte(address)
            }
        } else {
            self.ram_byte(address)
        }
    }

    pub fn new(roms: &RomImages) -> (memory: Self)
        requires
            is_pow2(roms.os_6128@.len() as int),
            is_pow2(roms.basic_6128@.len() as int),
            is_pow2(roms.amsdos@.len() as int),
        ensures
            memory.wf(),
            memory.ram.bytes() == zeroed(0x20000),
            memory.ram.clock().ticks == 0,
            memory.lower_rom.bytes() == roms.os_6128@,
            memory.lower_rom.clock().ticks == 0,
            memory.lower_rom_enabled,
            memory.upper_roms@.dom() == set![0u8, 7u8],
            memory.upper_roms@[0].bytes() == roms.basic_6128@,
            memory.upper_roms@[7].bytes() == roms.amsdos@,
            memory.upper_roms@[0].clock().ticks == 0,
            memory.upper_roms@[7].clock().ticks == 0,
            memory.selected_upper_rom == 0,
            memory.upper_rom_enabled,
            !memory.ram_read_forced,
            memory.ram_config == 0,
    {
        proof {
            lemma_memory_sizes_are_pow2();
        }
        let mut upper_roms = HashMap::new();
        upper_roms.insert(0, Rom::from_bytes(roms.basic_6128.as_slice()));
        upper_roms.insert(7, Rom::from_bytes(roms.amsdos.as_slice()));
        assert(upper_roms@.dom() =~= set![0u8, 7u8]);

        MemoryCpc6128 {
            ram: Ram::new(0x20000),
            lower_rom: Rom::from_bytes(roms.os_6128.as_slice()),
            lower_rom_enabled: true,
            upper_roms,
            selected_upper_rom: 0,
            upper_rom_enabled: true,
            ram_read_forced: false,
            ram_config: 0,
        }
    }

    /// The physical RAM address that the CPU reaches at `address` under the
    /// current RAM configuration.
    pub fn resolve_ram_address(&self, address: usize) -> (phys: usize)
        ensures
            phys == self.ram_address(address),
            phys < 0x20000,
    {
        let slot = (address >> 14) & 0x3;
        let offset = address & 0x3FFF;
        let raw_config = self.ram_config;
        let config = raw_config & 0x7;
        assert(slot == ((address as int) / 0x4000) % 4 && offset == (address as int) % 0x4000)
            by (bit_vector)
            requires
                slot == (address >> 14) & 0x3,
                offset == address & 0x3FFF,
        ;
        assert(config == raw_config % 8) by (bit_vector)
            requires
                config == raw_config & 0x7,
        ;
        let bank = ram_bank(config, slot);
        bank * RAM_BANK_SIZE + offset
    }
}

impl MemoryCpc6128 {
    /// The 64K of RAM that the CPU sees through the current bank mapping.
    pub open spec fn composite_ram(&self) -> Seq<u8> {
        Seq::new(0x10000, |i: int| self.ram.bytes()[physical_address(self.config(), i)])
    }

    /// The 64K that the CPU sees when RAM reads are not forced.
    pub open spec fn composite_rom_ram(&self) -> Seq<u8> {
        roms_over(
            self.composite_ram(),
            self.lower_rom_enabled,
            self.lower_rom.bytes(),
            self.upper_rom_enabled,
            rom_images(self.upper_roms@),
            self.selected_upper_rom,
        )
    }

    /// `view` is a snapshot of this memory: the base 64K of RAM and the 64K of
    /// expansion RAM, its ROMs and their switches, the RAM that the CPU sees
    /// through the bank mapping and the 64K that the CPU sees.
    pub open spec fn shows(&self, view: MemoryDebugView) -> bool {
        &&& view.ram@ == self.ram.bytes().subrange(0, 0x10000)
        &&& view.ram_extension@ == self.ram.bytes().subrange(0x10000, 0x20000)
        &&& view.lower_rom@ == self.lower_rom.bytes()
        &&& view.lower_rom_enabled == self.lower_rom_enabled
        &&& images_view(view.upper_roms@) == rom_images(self.upper_roms@)
        &&& view.selected_upper_rom == self.selected_upper_rom
        &&& view.upper_rom_enabled == self.upper_rom_enabled
        &&& view.composite_ram@ == self.composite_ram()
        &&& view.composite_rom_ram@ == self.composite_rom_ram()
    }

    pub fn debug_view(&self) -> (view: MemoryDebugView)
        requires
            self.snapshot_ready(),
        ensures
            self.shows(view),
    {
        let upper_roms = upper_rom_images(&self.upper_roms);
        let all_ram = self.ram.debug_view().data;
        let ram = vstd::slice::slice_to_vec(
            vstd::slice::slice_subrange(all_ram.as_slice(), 0, 0x10000),
        );
        let ram_extension = vstd::slice::slice_to_vec(
            vstd::slice::slice_subrange(all_ram.as_slice(), 0x10000, 0x20000),
        );
        let lower_rom = self.lower_rom.debug_view().data;
        let lower_rom_enabled = self.lower_rom_enabled;
        let selected_upper_rom = self.selected_upper_rom;
        let upper_rom_enabled = self.upper_rom_enabled;

        // Build the 64K composite RAM by walking the current bank mapping.
        let raw_config = self.ram_config;
        let config = raw_config & 0x7;
        assert(config == raw_config % 8) by (bit_vector)
            requires
                config == raw_config & 0x7,
        ;
        let mut composite_ram = vec![0u8; 0x10000];
        let mut slot: usize = 0;
        while slot < 4
            invariant
                slot <= 4,
                config == self.config(),
                all_ram@ == self.ram.bytes(),
                all_ram@.len() == 0x20000,
                composite_ram@.len() == 0x10000,
                forall|i: int|
                    0 <= i < slot * RAM_BANK_SIZE ==> #[trigger] composite_ram@[i]
                        == all_ram@[physical_address(config as int, i)],
            decreases 4 - slot,
        {
            let bank = ram_bank(config, slot);
            let src = bank * RAM_BANK_SIZE;
            let dst = slot * RAM_BANK_SIZE;
            let ghost before = composite_ram@;
            overlay(
                &mut composite_ram,
                dst,
                vstd::slice::slice_subrange(all_ram.as_slice(), src, src + RAM_BANK_SIZE),
            );
            assert forall|i: int|
                0 <= i < (slot + 1) * RAM_BANK_SIZE implies #[trigger] composite_ram@[i]
                    == all_ram@[physical_address(config as int, i)] by {
                if i >= dst {
                    lemma_slot_and_offset(slot as int, i - dst);
                } else {
                    assert(composite_ram@[i] == before[i]);
                }
            }
            slot = slot + 1;
        }
        assert(composite_ram@ =~= self.composite_ram());

        let composite_rom_ram = {
            proof {
                lemma_selected_image(upper_roms@, self.upper_roms@, selected_upper_rom);
            }
            compose_roms(
                &composite_ram,
                lower_rom_enabled,
                &lower_rom,
                upper_rom_enabled,
                &upper_roms,
                selected_upper_rom,
            )
        };

        MemoryDebugView {
            ram,
            ram_extension,
            lower_rom,
            lower_rom_enabled,
            upper_roms,
            selected_upper_rom,
            upper_rom_enabled,
            composite_rom_ram,
            composite_ram,
        }
    }
}

impl MemRead for MemoryCpc6128 {
    open spec fn readable(&self) -> bool {
        self.wf()
    }

    open spec fn reads(&self, address: usize, value: u8) -> bool {
        value == self.byte_at(address)
    }

    fn read_byte(&self, address: usize) -> (value: u8) {
        if self.ram_read_forced {
            return self.ram.read_byte(self.resolve_ram_address(address));
        }
        if self.lower_rom_enabled && address < 0x4000 {
            return self.lower_rom.read_byte(address);
        }
        if self.upper_rom_enabled && address >= 0xc000 {
            match self.upper_roms.get(&self.selected_upper_rom) {
                Some(upper_rom) => return upper_rom.read_byte(address - 0xc000),
                None => return self.ram.read_byte(self.resolve_ram_address(address)),
            }
        }
        self.ram.read_byte(self.resolve_ram_address(address))
    }
}

impl MemWrite for MemoryCpc6128 {
    open spec fn writable(&self) -> bool {
        self.wf()
    }

    /// Writes always go to the banked RAM, whatever ROM is enabled over the address.
    open spec fn writes(self, address: usize, value: u8, after: Self) -> bool {
        &&& self.ram.writes(self.ram_address(address) as usize, value, after.ram)
        &&& after.lower_rom == self.lower_rom
        &&& after.lower_rom_enabled == self.lower_rom_enabled
        &&& after.upper_roms == self.upper_roms
        &&& after.selected_upper_rom == self.selected_upper_rom
        &&& after.upper_rom_enabled == self.upper_rom_enabled
        &&& after.ram_read_forced == self.ram_read_forced
        &&& after.ram_config == self.ram_config
    }

    fn write_byte(&mut self, address: usize, value: u8) {
        let phys = self.resolve_ram_address(address);
        self.ram.write_byte(phys, value);
    }
}

impl MemManage for MemoryCpc6128 {
    open spec fn lower_rom_switched(self, enable: bool, after: Self) -> bool {
        after == (MemoryCpc6128 { lower_rom_enabled: enable, ..self })
    }

    open spec fn upper_rom_switched(self, enable: bool, after: Self) -> bool {
        after == (MemoryCpc6128 { upper_rom_enabled: enable, ..self })
    }

    open spec fn upper_rom_selected(self, upper_rom_nr: u8, after: Self) -> bool {
        after == (MemoryCpc6128 { selected_upper_rom: upper_rom_nr, ..self })
    }

    open spec fn ram_read_switched(self, force: bool, after: Self) -> bool {
        after == (MemoryCpc6128 { ram_read_forced: force, ..self })
    }

    fn enable_lower_rom(&mut self, enable: bool) {
        self.lower_rom_enabled = enable;
    }

    fn enable_upper_rom(&mut self, enable: bool) {
        self.upper_rom_enabled = enable;
    }

    fn select_upper_rom(&mut self, upper_rom_nr: u8) {
        self.selected_upper_rom = upper_rom_nr;
    }

    fn force_ram_read(&mut self, force: bool) {
        self.ram_read_forced = force;
    }

    /// Keeps the low three bits of `config`, which select one of the eight configurations.
    fn set_ram_config(&mut self, config: u8)
        ensures
            *final(self) == (MemoryCpc6128 { ram_config: config % 8, ..*old(self) }),
    {
        let masked = config & 0x7;
        assert(masked == config % 8) by (bit_vector)
            requires
                masked == config & 0x7,
        ;
        self.ram_config = masked;
    }
}

} // verus!
