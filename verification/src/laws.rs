use vstd::prelude::*;

use vstd::arithmetic::div_mod::lemma_add_mod_noop;
use vstd::arithmetic::div_mod::lemma_mod_add_multiples_vanish;
use vstd::arithmetic::div_mod::lemma_small_mod;
use vstd::arithmetic::div_mod::lemma_sub_mod_noop;
use vstd::arithmetic::div_mod::lemma_sub_mod_noop_right;

use crate::any_memory::AnyMemory;
use crate::cpc6128::bank_of;
use crate::cpc6128::offset_of;
use crate::cpc6128::physical_address;
use crate::cpc6128::ram_config_table;
use crate::cpc6128::slot_of;
use crate::cpc6128::MemoryCpc6128;
use crate::cpc_x64::MemoryCpcX64;
use crate::ram::load_at;
use crate::debug_view::rom_images;
use crate::ram::zeroed;
use crate::ram::Ram;
use crate::rom::Rom;
use crate::roms::CpcModel;
use crate::roms::RomImages;
use crate::traits::high_byte;
use crate::traits::low_byte;
use crate::traits::word_of;
use crate::traits::MemManage;
use crate::traits::MemRead;
use crate::traits::MemWrite;

verus! {

/// A byte written to RAM is read back at that address, and at every other
/// address that reaches the same cell; every other cell keeps its byte.
pub proof fn lemma_ram_read_after_write(
    before: Ram,
    after: Ram,
    address: usize,
    value: u8,
    other: usize,
)
    requires
        before.wf(),
        before.writes(address, value, after),
    ensures
        after.wf(),
        after.reads(address, value),
        before.index_of(other) == before.index_of(address) ==> after.reads(other, value),
        before.index_of(other) != before.index_of(address) ==> after.byte_at(other)
            == before.byte_at(other),
{
}

/// RAM addresses wrap around the size of the RAM.
pub proof fn lemma_ram_wraps(ram: Ram, address: usize)
    requires
        ram.wf(),
        address + ram.bytes().len() <= usize::MAX,
    ensures
        ram.byte_at((address + ram.bytes().len()) as usize) == ram.byte_at(address),
{
    let n = ram.bytes().len() as int;
    lemma_mod_add_multiples_vanish(address as int, n);
}

/// ROM addresses wrap around the size of the ROM.
pub proof fn lemma_rom_wraps(rom: Rom, address: usize)
    requires
        rom.wf(),
        address + rom.bytes().len() <= usize::MAX,
    ensures
        rom.byte_at((address + rom.bytes().len()) as usize) == rom.byte_at(address),
{
    let n = rom.bytes().len() as int;
    lemma_mod_add_multiples_vanish(address as int, n);
}

/// Loading bytes that fit into memory puts the `i`-th at `offset + i` (wrapped)
/// and leaves every other cell as it was.
proof fn lemma_load_at(mem: Seq<u8>, bytes: Seq<u8>, offset: int, j: int)
    requires
        0 < mem.len(),
        bytes.len() <= mem.len(),
        0 <= offset,
        0 <= j < mem.len(),
    ensures
        load_at(mem, bytes, offset).len() == mem.len(),
        load_at(mem, bytes, offset)[j] == if (j - offset) % (mem.len() as int) < bytes.len() {
            bytes[(j - offset) % (mem.len() as int)]
        } else {
            mem[j]
        },
    decreases bytes.len(),
{
    let n = mem.len() as int;
    if bytes.len() > 0 {
        let last = bytes.len() - 1;
        lemma_load_at(mem, bytes.drop_last(), offset, j);
        let target = (offset + last) % n;
        assert((target - offset) % n == last) by {
            lemma_sub_mod_noop_right(target, offset, n);
            lemma_sub_mod_noop(offset + last, offset, n);
            lemma_small_mod(last as nat, n as nat);
        }
        if j != target && (j - offset) % n == last {
            lemma_add_mod_noop(j - offset, offset, n);
            lemma_add_mod_noop(last, offset, n);
            lemma_small_mod(last as nat, n as nat);
            lemma_small_mod(j as nat, n as nat);
            assert(false);
        }
    }
}

/// A RAM loaded with bytes that fit gives them back, the `i`-th at `offset + i`,
/// and reads zero everywhere else.
pub proof fn lemma_loaded_bytes_read_back(ram: Ram, bytes: Seq<u8>, offset: usize, address: usize)
    requires
        ram.wf(),
        ram.bytes() == load_at(zeroed(ram.bytes().len()), bytes, offset as int),
        bytes.len() <= ram.bytes().len(),
    ensures
        ({
            let i = ((address - offset) as int) % (ram.bytes().len() as int);
            ram.byte_at(address) == if i < bytes.len() {
                bytes[i]
            } else {
                0
            }
        }),
{
    let n = ram.bytes().len() as int;
    let j = (address as int) % n;
    lemma_load_at(zeroed(n as nat), bytes, offset as int, j);
    assert((j - offset) % n == (address - offset) % n) by {
        lemma_sub_mod_noop(address as int, offset as int, n);
        lemma_sub_mod_noop_right(j, offset as int, n);
    }
}

/// A word written to RAM of at least two bytes is read back.
pub proof fn lemma_ram_word_round_trip(
    before: Ram,
    after: Ram,
    address: usize,
    value: u16,
    word: u16,
)
    requires
        before.wf(),
        before.bytes().len() >= 2,
        address < usize::MAX,
        exists|mid: Ram|
            #![trigger before.writes(address, low_byte(value), mid)]
            before.writes(address, low_byte(value), mid) && mid.writes(
                (address + 1) as usize,
                high_byte(value),
                after,
            ),
        exists|low: u8, high: u8|
            #![trigger after.reads(address, low), after.reads((address + 1) as usize, high)]
            after.reads(address, low) && after.reads((address + 1) as usize, high) && word
                == word_of(low, high),
    ensures
        word == value,
{
    let n = before.bytes().len() as int;
    let mid = choose|mid: Ram|
        #![trigger before.writes(address, low_byte(value), mid)]
        before.writes(address, low_byte(value), mid) && mid.writes(
            (address + 1) as usize,
            high_byte(value),
            after,
        );
    assert(before.index_of(address) != before.index_of((address + 1) as usize)) by {
        let a = address as int;
        lemma_sub_mod_noop(a + 1, a, n);
        lemma_small_mod(1, n as nat);
        assert(((a + 1) - a) % n == 1);
        if (a + 1) % n == a % n {
            lemma_small_mod(0, n as nat);
            assert(((a + 1) % n - a % n) % n == 0);
        }
    }
}

/// A CPU address reaches a cell of the 128K of RAM, through its slot and
/// offset in the 64K address space.
pub proof fn lemma_physical_address_in_ram(config: int, address: int)
    requires
        0 <= config < 8,
        0 <= address,
    ensures
        0 <= physical_address(config, address) < 0x20000,
        physical_address(config, address) == physical_address(config, address % 0x10000),
{
    assert(address % 0x10000 == ((address / 0x4000) % 4) * 0x4000 + address % 0x4000);
    assert((address % 0x10000) / 0x4000 == (address / 0x4000) % 4);
    assert((address % 0x10000) % 0x4000 == address % 0x4000);
}

/// Under every RAM configuration, distinct addresses of the 64K space reach
/// distinct cells of RAM: each configuration maps the four slots to four
/// distinct banks.
pub proof fn lemma_physical_address_injective(config: int, a: int, b: int)
    requires
        0 <= config < 8,
        0 <= a,
        0 <= b,
        a % 0x10000 != b % 0x10000,
    ensures
        physical_address(config, a) != physical_address(config, b),
{
    assert(a % 0x10000 == slot_of(a) * 0x4000 + offset_of(a));
    assert(b % 0x10000 == slot_of(b) * 0x4000 + offset_of(b));
    let row = ram_config_table()[config];
    assert(row[0] != row[1] && row[0] != row[2] && row[0] != row[3] && row[1] != row[2] && row[1]
        != row[3] && row[2] != row[3]);
}

/// Slots 0 and 2 show banks 0 and 2 under every RAM configuration but 2, which
/// shows banks 4 to 7 in the four slots.
pub proof fn lemma_ram_config_fixed_slots(config: int)
    requires
        0 <= config < 8,
    ensures
        config != 2 ==> bank_of(config, 0) == 0 && bank_of(config, 2) == 2,
        config == 2 ==> bank_of(config, 0) == 4 && bank_of(config, 1) == 5 && bank_of(config, 2)
            == 6 && bank_of(config, 3) == 7,
{
}

/// A write on the 6128 changes exactly one cell of RAM, the one that the
/// address reaches under the current configuration; ROMs and switches stay.
pub proof fn lemma_cpc6128_write_changes_one_cell(
    before: MemoryCpc6128,
    after: MemoryCpc6128,
    address: usize,
    value: u8,
    cell: int,
)
    requires
        before.wf(),
        before.writes(address, value, after),
        0 <= cell < 0x20000,
    ensures
        after.wf(),
        after.ram.bytes()[cell] == if cell == before.ram_address(address) {
            value
        } else {
            before.ram.bytes()[cell]
        },
        after.lower_rom == before.lower_rom,
        after.upper_roms == before.upper_roms,
        after.config() == before.config(),
{
    lemma_physical_address_in_ram(before.config(), address as int);
    lemma_small_mod(before.ram_address(address) as nat, 0x20000);
}

/// On the 6128, a byte written is read back wherever RAM shows; where an
/// enabled ROM shows, reads are unchanged; at an address that reaches another
/// cell of RAM, reads are unchanged.
pub proof fn lemma_cpc6128_read_after_write(
    before: MemoryCpc6128,
    after: MemoryCpc6128,
    address: usize,
    value: u8,
    other: usize,
)
    requires
        before.wf(),
        before.writes(address, value, after),
    ensures
        before.reads_ram_at(address) ==> after.reads(address, value),
        !before.reads_ram_at(other) ==> after.byte_at(other) == before.byte_at(other),
        (other as int) % 0x10000 != (address as int) % 0x10000 ==> after.byte_at(other)
            == before.byte_at(other),
{
    lemma_cpc6128_write_changes_one_cell(before, after, address, value, before.ram_address(address));
    lemma_physical_address_in_ram(before.config(), other as int);
    lemma_cpc6128_write_changes_one_cell(before, after, address, value, before.ram_address(other));
    if (other as int) % 0x10000 != (address as int) % 0x10000 {
        lemma_physical_address_injective(before.config(), address as int, other as int);
    }
}

/// On the 6128, a word written where RAM shows at both its bytes is read back.
pub proof fn lemma_cpc6128_word_round_trip(
    before: MemoryCpc6128,
    after: MemoryCpc6128,
    address: usize,
    value: u16,
    word: u16,
)
    requires
        before.wf(),
        address < usize::MAX,
        before.reads_ram_at(address),
        before.reads_ram_at((address + 1) as usize),
        exists|mid: MemoryCpc6128|
            #![trigger before.writes(address, low_byte(value), mid)]
            before.writes(address, low_byte(value), mid) && mid.writes(
                (address + 1) as usize,
                high_byte(value),
                after,
            ),
        exists|low: u8, high: u8|
            #![trigger after.reads(address, low), after.reads((address + 1) as usize, high)]
            after.reads(address, low) && after.reads((address + 1) as usize, high) && word
                == word_of(low, high),
    ensures
        word == value,
{
    let mid = choose|mid: MemoryCpc6128|
        #![trigger before.writes(address, low_byte(value), mid)]
        before.writes(address, low_byte(value), mid) && mid.writes(
            (address + 1) as usize,
            high_byte(value),
            after,
        );
    let next = (address + 1) as usize;
    lemma_cpc6128_read_after_write(before, mid, address, low_byte(value), next);
    lemma_cpc6128_read_after_write(mid, after, next, high_byte(value), address);
    assert((address as int) % 0x10000 != (next as int) % 0x10000) by {
        lemma_sub_mod_noop(address + 1, address as int, 0x10000);
        lemma_small_mod(1, 0x10000);
        lemma_small_mod(0, 0x10000);
    }
}

/// On the 464 and 664, a byte written is read back wherever RAM shows; where an
/// enabled ROM shows, reads are unchanged; at an address that reaches another
/// cell of RAM, reads are unchanged.
pub proof fn lemma_cpc_x64_read_after_write(
    before: MemoryCpcX64,
    after: MemoryCpcX64,
    address: usize,
    value: u8,
    other: usize,
)
    requires
        before.wf(),
        before.writes(address, value, after),
    ensures
        before.reads_ram_at(address) ==> after.reads(address, value),
        !before.reads_ram_at(other) ==> after.byte_at(other) == before.byte_at(other),
        (other as int) % 0x10000 != (address as int) % 0x10000 ==> after.byte_at(other)
            == before.byte_at(other),
{
    lemma_ram_read_after_write(before.ram, after.ram, address, value, other);
}

/// On the 464 and 664, a word written where RAM shows at both its bytes is
/// read back.
pub proof fn lemma_cpc_x64_word_round_trip(
    before: MemoryCpcX64,
    after: MemoryCpcX64,
    address: usize,
    value: u16,
    word: u16,
)
    requires
        before.wf(),
        address < usize::MAX,
        before.reads_ram_at(address),
        before.reads_ram_at((address + 1) as usize),
        exists|mid: MemoryCpcX64|
            #![trigger before.writes(address, low_byte(value), mid)]
            before.writes(address, low_byte(value), mid) && mid.writes(
                (address + 1) as usize,
                high_byte(value),
                after,
            ),
        exists|low: u8, high: u8|
            #![trigger after.reads(address, low), after.reads((address + 1) as usize, high)]
            after.reads(address, low) && after.reads((address + 1) as usize, high) && word
                == word_of(low, high),
    ensures
        word == value,
{
    let mid = choose|mid: MemoryCpcX64|
        #![trigger before.writes(address, low_byte(value), mid)]
        before.writes(address, low_byte(value), mid) && mid.writes(
            (address + 1) as usize,
            high_byte(value),
            after,
        );
    let next = (address + 1) as usize;
    lemma_cpc_x64_read_after_write(before, mid, address, low_byte(value), next);
    lemma_cpc_x64_read_after_write(mid, after, next, high_byte(value), address);
    assert((address as int) % 0x10000 != (next as int) % 0x10000) by {
        lemma_sub_mod_noop(address + 1, address as int, 0x10000);
        lemma_small_mod(1, 0x10000);
        lemma_small_mod(0, 0x10000);
    }
}

/// On the 464 and 664, the debugger's composite view holds, at each address of
/// the 64K, the byte that the CPU reads there when RAM reads are not forced and
/// the ROMs it lays over the RAM are 16K.
pub proof fn lemma_cpc_x64_composite_shows_reads(memory: MemoryCpcX64, address: usize)
    requires
        memory.wf(),
        memory.snapshot_ready(),
        !memory.ram_read_forced,
        address < 0x10000,
    ensures
        memory.composite_rom_ram()[address as int] == memory.byte_at(address),
{
    lemma_small_mod(address as nat, 0x10000);
    if address < 0x4000 {
        lemma_small_mod(address as nat, 0x4000);
    }
    if address >= 0xc000 {
        lemma_small_mod((address - 0xc000) as nat, 0x4000);
    }
}

/// On the 6128, the debugger's composite views hold, at each address of the
/// 64K, the RAM byte that the bank mapping shows there and, when RAM reads are
/// not forced and the ROMs it lays over the RAM are 16K, the byte that the CPU
/// reads there.
pub proof fn lemma_cpc6128_composite_shows_reads(memory: MemoryCpc6128, address: usize)
    requires
        memory.wf(),
        address < 0x10000,
    ensures
        memory.composite_ram()[address as int] == memory.ram_byte(address),
        !memory.ram_read_forced && memory.snapshot_ready() ==> memory.composite_rom_ram()[address
            as int] == memory.byte_at(address),
{
    if address < 0x4000 {
        lemma_small_mod(address as nat, 0x4000);
    }
    if address >= 0xc000 {
        lemma_small_mod((address - 0xc000) as nat, 0x4000);
    }
}

/// A 6128 under RAM configuration 0 and a 464/664 memory that hold the same
/// ROM images under the same switches, where the 464/664's RAM is the 6128's
/// first 64K.
pub open spec fn runs_as_64k(m6: MemoryCpc6128, mx: MemoryCpcX64) -> bool {
    &&& m6.config() == 0
    &&& m6.ram.bytes().subrange(0, 0x10000) == mx.ram.bytes()
    &&& m6.lower_rom.bytes() == mx.lower_rom.bytes()
    &&& m6.lower_rom_enabled == mx.lower_rom_enabled
    &&& rom_images(m6.upper_roms@) == rom_images(mx.upper_roms@)
    &&& m6.selected_upper_rom == mx.selected_upper_rom
    &&& m6.upper_rom_enabled == mx.upper_rom_enabled
    &&& m6.ram_read_forced == mx.ram_read_forced
}

/// Under RAM configuration 0 a 6128 reads like a 64K CPC with the same ROMs:
/// banks 0 to 3 show in slots 0 to 3.
pub proof fn lemma_config_0_reads_like_64k(m6: MemoryCpc6128, mx: MemoryCpcX64, address: usize)
    requires
        m6.wf(),
        mx.wf(),
        runs_as_64k(m6, mx),
    ensures
        m6.byte_at(address) == mx.byte_at(address),
{
    let a = address as int;
    lemma_physical_address_in_ram(0, a);
    let x = a % 0x10000;
    assert(x == slot_of(x) * 0x4000 + offset_of(x));
    assert(bank_of(0, slot_of(x)) == slot_of(x));
    assert(m6.ram_address(address) == x);
    assert(m6.ram.bytes().subrange(0, 0x10000)[x] == m6.ram.bytes()[x]);
    let sel = m6.selected_upper_rom;
    assert(m6.upper_roms@.contains_key(sel) == mx.upper_roms@.contains_key(sel)) by {
        assert(rom_images(m6.upper_roms@).contains_key(sel) == m6.upper_roms@.contains_key(sel));
        assert(rom_images(mx.upper_roms@).contains_key(sel) == mx.upper_roms@.contains_key(sel));
    }
    if m6.upper_roms@.contains_key(sel) {
        assert(rom_images(m6.upper_roms@)[sel] == m6.upper_roms@[sel].bytes());
        assert(rom_images(mx.upper_roms@)[sel] == mx.upper_roms@[sel].bytes());
    }
}

/// The same byte written to both keeps a 6128 under configuration 0 in step
/// with a 64K CPC.
pub proof fn lemma_config_0_writes_keep_64k(
    m6: MemoryCpc6128,
    mx: MemoryCpcX64,
    m6_after: MemoryCpc6128,
    mx_after: MemoryCpcX64,
    address: usize,
    value: u8,
)
    requires
        m6.wf(),
        mx.wf(),
        runs_as_64k(m6, mx),
        m6.writes(address, value, m6_after),
        mx.writes(address, value, mx_after),
    ensures
        m6_after.wf(),
        mx_after.wf(),
        runs_as_64k(m6_after, mx_after),
{
    let a = address as int;
    lemma_physical_address_in_ram(0, a);
    let x = a % 0x10000;
    assert(x == slot_of(x) * 0x4000 + offset_of(x));
    assert(bank_of(0, slot_of(x)) == slot_of(x));
    assert(m6.ram_address(address) == x);
    lemma_small_mod(x as nat, 0x20000);
    assert(m6_after.ram.bytes().subrange(0, 0x10000) =~= mx_after.ram.bytes());
}

/// The ROM and RAM-read switches, set alike on both, and a RAM configuration
/// whose low three bits are 0 keep a 6128 in step with a 64K CPC.
pub proof fn lemma_config_0_switches_keep_64k(
    m6: MemoryCpc6128,
    mx: MemoryCpcX64,
    lower_rom_enabled: bool,
    upper_rom_enabled: bool,
    selected_upper_rom: u8,
    ram_read_forced: bool,
    config: u8,
)
    requires
        runs_as_64k(m6, mx),
        config % 8 == 0,
    ensures
        runs_as_64k(
            (MemoryCpc6128 {
                lower_rom_enabled,
                upper_rom_enabled,
                selected_upper_rom,
                ram_read_forced,
                ram_config: config % 8,
                ..m6
            }),
            (MemoryCpcX64 {
                lower_rom_enabled,
                upper_rom_enabled,
                selected_upper_rom,
                ram_read_forced,
                ..mx
            }),
        ),
{
}

/// A new 6128 and a new 64K CPC built as a 6128 with the same ROM images start
/// in step.
pub proof fn lemma_new_machines_run_as_64k(roms: RomImages, m6: MemoryCpc6128, mx: MemoryCpcX64)
    requires
        m6.ram.bytes() == zeroed(0x20000),
        m6.lower_rom.bytes() == roms.os_6128@,
        m6.lower_rom_enabled,
        m6.upper_roms@.dom() == set![0u8, 7u8],
        m6.upper_roms@[0].bytes() == roms.basic_6128@,
        m6.upper_roms@[7].bytes() == roms.amsdos@,
        m6.selected_upper_rom == 0,
        m6.upper_rom_enabled,
        !m6.ram_read_forced,
        m6.ram_config == 0,
        mx.ram.bytes() == zeroed(0x10000),
        mx.lower_rom.bytes() == roms.os_rom(CpcModel::Cpc6128),
        mx.lower_rom_enabled,
        mx.upper_roms@.dom() == set![0u8, 7u8],
        mx.upper_roms@[0].bytes() == roms.basic_rom(CpcModel::Cpc6128),
        mx.upper_roms@[7].bytes() == roms.amsdos@,
        mx.selected_upper_rom == 0,
        mx.upper_rom_enabled,
        !mx.ram_read_forced,
    ensures
        runs_as_64k(m6, mx),
{
    assert(m6.ram.bytes().subrange(0, 0x10000) =~= mx.ram.bytes());
    assert(rom_images(m6.upper_roms@) =~= rom_images(mx.upper_roms@)) by {
        assert forall|k: u8| #[trigger] rom_images(m6.upper_roms@).contains_key(k) implies rom_images(
            m6.upper_roms@,
        )[k] == rom_images(mx.upper_roms@)[k] by {
            assert(k == 0 || k == 7);
        }
    }
}

/// What each of the eight RAM configurations shows in the CPU's four 16K
/// slots, for any address (taken modulo 64K): configuration 0 shows banks 0 to
/// 3 in order; 1 shows bank 7 in slot 3; 2 shows banks 4 to 7; 3 shows bank 3
/// in slot 1 and bank 7 in slot 3; 4 to 7 show bank 4 to 7 in slot 1. Every
/// slot not named shows the bank of the same number.
pub proof fn lemma_ram_configurations(config: int, address: int)
    requires
        0 <= config < 8,
        0 <= address,
    ensures
        ({
            let in_64k = address % 0x10000;
            let slot = in_64k / 0x4000;
            let offset = address % 0x4000;
            let p = physical_address(config, address);
            &&& config == 0 ==> p == in_64k
            &&& config == 1 ==> p == if slot == 3 {
                7 * 0x4000 + offset
            } else {
                in_64k
            }
            &&& config == 2 ==> p == 0x10000 + in_64k
            &&& config == 3 ==> p == if slot == 1 {
                3 * 0x4000 + offset
            } else if slot == 3 {
                7 * 0x4000 + offset
            } else {
                in_64k
            }
            &&& 4 <= config ==> p == if slot == 1 {
                config * 0x4000 + offset
            } else {
                in_64k
            }
        }),
{
    let in_64k = address % 0x10000;
    assert(in_64k == slot_of(address) * 0x4000 + offset_of(address));
    assert(in_64k / 0x4000 == slot_of(address));
}

/// The any-model memory is the machine it wraps: it reads what that machine
/// reads, and its writes are that machine's writes, leaving the model as it is.
pub proof fn lemma_any_memory_is_its_machine(
    x64: MemoryCpcX64,
    x64_after: MemoryCpcX64,
    m6128: MemoryCpc6128,
    m6128_after: MemoryCpc6128,
    address: usize,
    value: u8,
)
    ensures
        AnyMemory::CpcX64(x64).readable() == x64.readable(),
        AnyMemory::Cpc6128(m6128).readable() == m6128.readable(),
        AnyMemory::CpcX64(x64).byte_at(address) == x64.byte_at(address),
        AnyMemory::Cpc6128(m6128).byte_at(address) == m6128.byte_at(address),
        AnyMemory::CpcX64(x64).reads(address, value) == x64.reads(address, value),
        AnyMemory::Cpc6128(m6128).reads(address, value) == m6128.reads(address, value),
        AnyMemory::CpcX64(x64).writes(address, value, AnyMemory::CpcX64(x64_after)) == x64.writes(
            address,
            value,
            x64_after,
        ),
        AnyMemory::Cpc6128(m6128).writes(address, value, AnyMemory::Cpc6128(m6128_after))
            == m6128.writes(address, value, m6128_after),
        !AnyMemory::CpcX64(x64).writes(address, value, AnyMemory::Cpc6128(m6128_after)),
        !AnyMemory::Cpc6128(m6128).writes(address, value, AnyMemory::CpcX64(x64_after)),
{
}

/// The any-model memory's switches are those of the machine it wraps, and
/// leave the model as it is.
pub proof fn lemma_any_memory_switches_are_its_machines(
    x64: MemoryCpcX64,
    x64_after: MemoryCpcX64,
    m6128: MemoryCpc6128,
    m6128_after: MemoryCpc6128,
    flag: bool,
    upper_rom_nr: u8,
)
    ensures
        AnyMemory::CpcX64(x64).lower_rom_switched(flag, AnyMemory::CpcX64(x64_after))
            == x64.lower_rom_switched(flag, x64_after),
        AnyMemory::CpcX64(x64).upper_rom_switched(flag, AnyMemory::CpcX64(x64_after))
            == x64.upper_rom_switched(flag, x64_after),
        AnyMemory::CpcX64(x64).upper_rom_selected(upper_rom_nr, AnyMemory::CpcX64(x64_after))
            == x64.upper_rom_selected(upper_rom_nr, x64_after),
        AnyMemory::CpcX64(x64).ram_read_switched(flag, AnyMemory::CpcX64(x64_after))
            == x64.ram_read_switched(flag, x64_after),
        AnyMemory::Cpc6128(m6128).lower_rom_switched(flag, AnyMemory::Cpc6128(m6128_after))
            == m6128.lower_rom_switched(flag, m6128_after),
        AnyMemory::Cpc6128(m6128).upper_rom_switched(flag, AnyMemory::Cpc6128(m6128_after))
            == m6128.upper_rom_switched(flag, m6128_after),
        AnyMemory::Cpc6128(m6128).upper_rom_selected(upper_rom_nr, AnyMemory::Cpc6128(m6128_after))
            == m6128.upper_rom_selected(upper_rom_nr, m6128_after),
        AnyMemory::Cpc6128(m6128).ram_read_switched(flag, AnyMemory::Cpc6128(m6128_after))
            == m6128.ram_read_switched(flag, m6128_after),
        !AnyMemory::CpcX64(x64).lower_rom_switched(flag, AnyMemory::Cpc6128(m6128_after)),
        !AnyMemory::Cpc6128(m6128).lower_rom_switched(flag, AnyMemory::CpcX64(x64_after)),
{
}

/// A write always lands in RAM, whatever ROM shows over the address: the RAM
/// byte at the address is the value written, and with the ROMs switched off and
/// reads not forced, the CPU reads it there.
pub proof fn lemma_writes_land_in_ram(
    x64: MemoryCpcX64,
    x64_after: MemoryCpcX64,
    m6128: MemoryCpc6128,
    m6128_after: MemoryCpc6128,
    address: usize,
    value: u8,
)
    requires
        x64.wf(),
        m6128.wf(),
        x64.writes(address, value, x64_after),
        m6128.writes(address, value, m6128_after),
    ensures
        x64_after.ram.byte_at(address) == value,
        (MemoryCpcX64 {
            lower_rom_enabled: false,
            upper_rom_enabled: false,
            ram_read_forced: false,
            ..x64_after
        }).byte_at(address) == value,
        m6128_after.ram_byte(address) == value,
        (MemoryCpc6128 {
            lower_rom_enabled: false,
            upper_rom_enabled: false,
            ram_read_forced: false,
            ..m6128_after
        }).byte_at(address) == value,
{
    lemma_cpc6128_write_changes_one_cell(m6128, m6128_after, address, value, m6128.ram_address(address));
}

/// Each switch of the 464/664 sets its own setting to exactly the value given
/// and leaves the memory contents and every other setting alone.
pub proof fn lemma_cpc_x64_switches(before: MemoryCpcX64, after: MemoryCpcX64, flag: bool, nr: u8)
    ensures
        before.lower_rom_switched(flag, after) ==> after.lower_rom_enabled == flag
            && after.upper_rom_enabled == before.upper_rom_enabled && after.selected_upper_rom
            == before.selected_upper_rom && after.ram_read_forced == before.ram_read_forced
            && after.ram == before.ram && after.lower_rom == before.lower_rom && after.upper_roms
            == before.upper_roms,
        before.upper_rom_switched(flag, after) ==> after.upper_rom_enabled == flag
            && after.lower_rom_enabled == before.lower_rom_enabled && after.selected_upper_rom
            == before.selected_upper_rom && after.ram_read_forced == before.ram_read_forced
            && after.ram == before.ram && after.lower_rom == before.lower_rom && after.upper_roms
            == before.upper_roms,
        before.upper_rom_selected(nr, after) ==> after.selected_upper_rom == nr
            && after.lower_rom_enabled == before.lower_rom_enabled && after.upper_rom_enabled
            == before.upper_rom_enabled && after.ram_read_forced == before.ram_read_forced
            && after.ram == before.ram && after.lower_rom == before.lower_rom && after.upper_roms
            == before.upper_roms,
        before.ram_read_switched(flag, after) ==> after.ram_read_forced == flag
            && after.lower_rom_enabled == before.lower_rom_enabled && after.upper_rom_enabled
            == before.upper_rom_enabled && after.selected_upper_rom == before.selected_upper_rom
            && after.ram == before.ram && after.lower_rom == before.lower_rom && after.upper_roms
            == before.upper_roms,
{
}

/// Each switch of the 6128 sets its own setting to exactly the value given and
/// leaves the memory contents and every other setting alone.
pub proof fn lemma_cpc6128_switches(before: MemoryCpc6128, after: MemoryCpc6128, flag: bool, nr: u8)
    ensures
        before.lower_rom_switched(flag, after) ==> after.lower_rom_enabled == flag
            && after.upper_rom_enabled == before.upper_rom_enabled && after.selected_upper_rom
            == before.selected_upper_rom && after.ram_read_forced == before.ram_read_forced
            && after.ram_config == before.ram_config && after.ram == before.ram && after.lower_rom
            == before.lower_rom && after.upper_roms == before.upper_roms,
        before.upper_rom_switched(flag, after) ==> after.upper_rom_enabled == flag
            && after.lower_rom_enabled == before.lower_rom_enabled && after.selected_upper_rom
            == before.selected_upper_rom && after.ram_read_forced == before.ram_read_forced
            && after.ram_config == before.ram_config && after.ram == before.ram && after.lower_rom
            == before.lower_rom && after.upper_roms == before.upper_roms,
        before.upper_rom_selected(nr, after) ==> after.selected_upper_rom == nr
            && after.lower_rom_enabled == before.lower_rom_enabled && after.upper_rom_enabled
            == before.upper_rom_enabled && after.ram_read_forced == before.ram_read_forced
            && after.ram_config == before.ram_config && after.ram == before.ram && after.lower_rom
            == before.lower_rom && after.upper_roms == before.upper_roms,
        before.ram_read_switched(flag, after) ==> after.ram_read_forced == flag
            && after.lower_rom_enabled == before.lower_rom_enabled && after.upper_rom_enabled
            == before.upper_rom_enabled && after.selected_upper_rom == before.selected_upper_rom
            && after.ram_config == before.ram_config && after.ram == before.ram && after.lower_rom
            == before.lower_rom && after.upper_roms == before.upper_roms,
{
}

/// What the switches show: once the lower ROM is switched on (reads not
/// forced), it shows below 0x4000; once the upper ROM is switched on, the
/// selected ROM, if present, shows from 0xC000; once reads are forced, RAM
/// shows everywhere; once they are released, the enabled lower ROM shows again.
pub proof fn lemma_cpc_x64_switches_show(before: MemoryCpcX64, after: MemoryCpcX64, address: usize)
    ensures
        before.lower_rom_switched(true, after) && !before.ram_read_forced && address < 0x4000
            ==> after.byte_at(address) == before.lower_rom.byte_at(address),
        before.upper_rom_switched(true, after) && !before.ram_read_forced && address >= 0xc000
            && before.upper_roms@.contains_key(before.selected_upper_rom) && !(
        before.lower_rom_enabled && address < 0x4000) ==> after.byte_at(address)
            == before.upper_roms@[before.selected_upper_rom].byte_at((address - 0xc000) as usize),
        before.ram_read_switched(true, after) ==> after.byte_at(address) == before.ram.byte_at(
            address,
        ),
        before.ram_read_switched(false, after) && before.lower_rom_enabled && address < 0x4000
            ==> after.byte_at(address) == before.lower_rom.byte_at(address),
{
}

/// What the switches show on the 6128: as on the 464/664, with RAM seen
/// through the current bank mapping.
pub proof fn lemma_cpc6128_switches_show(before: MemoryCpc6128, after: MemoryCpc6128, address: usize)
    ensures
        before.lower_rom_switched(true, after) && !before.ram_read_forced && address < 0x4000
            ==> after.byte_at(address) == before.lower_rom.byte_at(address),
        before.upper_rom_switched(true, after) && !before.ram_read_forced && address >= 0xc000
            && before.upper_roms@.contains_key(before.selected_upper_rom) && !(
        before.lower_rom_enabled && address < 0x4000) ==> after.byte_at(address)
            == before.upper_roms@[before.selected_upper_rom].byte_at((address - 0xc000) as usize),
        before.ram_read_switched(true, after) ==> after.byte_at(address) == before.ram.bytes()[
            physical_address(before.config(), address as int)],
        before.ram_read_switched(false, after) && before.lower_rom_enabled && address < 0x4000
            ==> after.byte_at(address) == before.lower_rom.byte_at(address),
{
}

} // verus!
