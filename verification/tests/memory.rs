use ronald_core::any_memory::AnyMemory;
use ronald_core::clock::MasterClockTick;
use ronald_core::cpc6128::MemoryCpc6128;
use ronald_core::cpc_x64::MemoryCpcX64;
use ronald_core::ram::Ram;
use ronald_core::rom::Rom;
use ronald_core::roms::CpcModel;
use ronald_core::roms::RomImages;
use ronald_core::test_memory::TestMemory;
use ronald_core::traits::MemManage;
use ronald_core::traits::MemRead;
use ronald_core::traits::MemWrite;

/// ROM images whose every byte names the image: 0x41 for the 464 OS, and so on.
fn marked_roms() -> RomImages {
    RomImages {
        os_464: vec![0x41; 0x4000],
        basic_464: vec![0x42; 0x4000],
        os_664: vec![0x61; 0x4000],
        basic_664: vec![0x62; 0x4000],
        os_6128: vec![0x81; 0x4000],
        basic_6128: vec![0x82; 0x4000],
        amsdos: vec![0xD0; 0x4000],
    }
}

#[test]
fn rom_reads_wrap_around_its_size() {
    let rom = Rom::from_bytes(&[1, 2, 3, 4]);
    assert_eq!(rom.read_byte(0), 1);
    assert_eq!(rom.read_byte(3), 4);
    assert_eq!(rom.read_byte(5), 2);
    assert_eq!(rom.read_byte(4 + 4 * 1000 + 2), 3);
    assert_eq!(rom.address_mask(), 3);
    assert_eq!(rom.master_clock(), MasterClockTick { ticks: 0 });
    assert_eq!(rom.debug_view().data, vec![1, 2, 3, 4]);
}

#[test]
fn rom_step_keeps_the_clock() {
    let mut rom = Rom::from_bytes(&[7, 8]);
    rom.step(MasterClockTick { ticks: 1234 });
    assert_eq!(rom.master_clock(), MasterClockTick { ticks: 1234 });
    assert_eq!(rom.read_byte(1), 8);
}

#[test]
fn ram_starts_zeroed() {
    let ram = Ram::new(16);
    for address in 0..64 {
        assert_eq!(ram.read_byte(address), 0);
    }
    assert_eq!(ram.address_mask(), 15);
    assert_eq!(ram.debug_view().data, vec![0; 16]);
}

#[test]
fn ram_reads_back_what_was_written() {
    let mut ram = Ram::new(16);
    ram.write_byte(3, 0x5A);
    assert_eq!(ram.read_byte(3), 0x5A);
    assert_eq!(ram.read_byte(19), 0x5A);
    assert_eq!(ram.read_byte(4), 0);
    // A write at an address past the end lands on the wrapped cell.
    ram.write_byte(16 + 5, 0xC3);
    assert_eq!(ram.read_byte(5), 0xC3);
    ram.step(MasterClockTick { ticks: 9 });
    assert_eq!(ram.master_clock(), MasterClockTick { ticks: 9 });
    assert_eq!(ram.read_byte(5), 0xC3);
}

#[test]
fn ram_from_bytes_loads_at_offset_and_wraps() {
    let ram = Ram::from_bytes(4, &[9, 8, 7], 3);
    assert_eq!(ram.debug_view().data, vec![8, 7, 0, 9]);
}

#[test]
fn ram_from_bytes_later_bytes_win_when_they_overlap() {
    let ram = Ram::from_bytes(2, &[1, 2, 3], 0);
    assert_eq!(ram.debug_view().data, vec![3, 2]);
}

#[test]
fn words_are_little_endian() {
    let mut ram = Ram::new(0x100);
    ram.write_byte(0x10, 0x34);
    ram.write_byte(0x11, 0x12);
    assert_eq!(ram.read_word(0x10), 0x1234);
    ram.write_word(0x20, 0xBEEF);
    assert_eq!(ram.read_byte(0x20), 0xEF);
    assert_eq!(ram.read_byte(0x21), 0xBE);
    assert_eq!(ram.read_word(0x20), 0xBEEF);
}

#[test]
fn word_straddling_the_end_of_ram_wraps() {
    let mut ram = Ram::new(0x100);
    ram.write_word(0xFF, 0xA55A);
    assert_eq!(ram.read_byte(0xFF), 0x5A);
    assert_eq!(ram.read_byte(0x00), 0xA5);
    assert_eq!(ram.read_word(0xFF), 0xA55A);
}

#[test]
fn ram_manage_calls_change_nothing() {
    let mut ram = Ram::from_bytes(4, &[1, 2, 3, 4], 0);
    ram.enable_lower_rom(true);
    ram.enable_upper_rom(true);
    ram.select_upper_rom(3);
    ram.force_ram_read(true);
    ram.set_ram_config(5);
    assert_eq!(ram.debug_view().data, vec![1, 2, 3, 4]);
}

#[test]
fn cpc464_reads_roms_over_ram() {
    let mut mem = MemoryCpcX64::new(CpcModel::Cpc464, &marked_roms());
    assert_eq!(mem.read_byte(0x0000), 0x41);
    assert_eq!(mem.read_byte(0x3FFF), 0x41);
    assert_eq!(mem.read_byte(0x4000), 0x00);
    assert_eq!(mem.read_byte(0xBFFF), 0x00);
    assert_eq!(mem.read_byte(0xC000), 0x42);
    assert_eq!(mem.read_byte(0xFFFF), 0x42);
    mem.select_upper_rom(7);
    assert_eq!(mem.read_byte(0xC000), 0xD0);
    // No ROM 3: the RAM below shows.
    mem.select_upper_rom(3);
    assert_eq!(mem.read_byte(0xC000), 0x00);
}

#[test]
fn cpc664_and_6128_models_use_their_own_roms() {
    let mem = MemoryCpcX64::new(CpcModel::Cpc664, &marked_roms());
    assert_eq!(mem.read_byte(0x0000), 0x61);
    assert_eq!(mem.read_byte(0xC000), 0x62);
    let mem = MemoryCpcX64::new(CpcModel::Cpc6128, &marked_roms());
    assert_eq!(mem.read_byte(0x0000), 0x81);
    assert_eq!(mem.read_byte(0xC000), 0x82);
}

#[test]
fn writes_under_a_rom_go_to_ram() {
    let mut mem = MemoryCpcX64::new(CpcModel::Cpc464, &marked_roms());
    mem.write_byte(0x0100, 0x99);
    mem.write_byte(0xC100, 0x98);
    mem.write_byte(0x8000, 0x97);
    assert_eq!(mem.read_byte(0x0100), 0x41);
    assert_eq!(mem.read_byte(0xC100), 0x42);
    assert_eq!(mem.read_byte(0x8000), 0x97);
    mem.enable_lower_rom(false);
    assert_eq!(mem.read_byte(0x0100), 0x99);
    mem.enable_upper_rom(false);
    assert_eq!(mem.read_byte(0xC100), 0x98);
    mem.enable_lower_rom(true);
    mem.enable_upper_rom(true);
    mem.force_ram_read(true);
    assert_eq!(mem.read_byte(0x0100), 0x99);
    assert_eq!(mem.read_byte(0xC100), 0x98);
    mem.force_ram_read(false);
    assert_eq!(mem.read_byte(0x0100), 0x41);
}

#[test]
fn cpc_x64_addresses_past_64k_wrap_in_ram() {
    let mut mem = MemoryCpcX64::new(CpcModel::Cpc464, &marked_roms());
    mem.write_byte(0x1_8000, 0x12);
    assert_eq!(mem.read_byte(0x8000), 0x12);
    // The upper ROM also covers addresses past 64K, wrapped within the ROM.
    assert_eq!(mem.read_byte(0x1_0000), 0x42);
    mem.enable_upper_rom(false);
    assert_eq!(mem.read_byte(0x1_8000), 0x12);
}

#[test]
fn cpc_x64_ignores_ram_config() {
    let mut mem = MemoryCpcX64::new(CpcModel::Cpc464, &marked_roms());
    mem.write_byte(0x4000, 0x33);
    mem.set_ram_config(2);
    assert_eq!(mem.read_byte(0x4000), 0x33);
}

#[test]
fn cpc_x64_debug_view_shows_what_the_cpu_reads() {
    let mut mem = MemoryCpcX64::new(CpcModel::Cpc464, &marked_roms());
    mem.write_byte(0x0000, 0x11);
    mem.write_byte(0x5000, 0x22);
    mem.write_byte(0xF000, 0x33);
    let view = mem.debug_view();
    assert_eq!(view.ram.len(), 0x10000);
    assert_eq!(view.ram[0x0000], 0x11);
    assert_eq!(view.ram[0x5000], 0x22);
    assert_eq!(view.ram_extension, Vec::<u8>::new());
    assert_eq!(view.composite_ram, view.ram);
    assert_eq!(view.lower_rom, vec![0x41; 0x4000]);
    assert!(view.lower_rom_enabled);
    assert!(view.upper_rom_enabled);
    assert_eq!(view.selected_upper_rom, 0);
    let mut keys: Vec<u8> = view.upper_roms.keys().copied().collect();
    keys.sort();
    assert_eq!(keys, vec![0, 7]);
    assert_eq!(view.upper_roms[&7], vec![0xD0; 0x4000]);
    for address in 0..0x10000 {
        assert_eq!(view.composite_rom_ram[address], mem.read_byte(address));
    }
    mem.enable_lower_rom(false);
    mem.select_upper_rom(9);
    let view = mem.debug_view();
    assert_eq!(view.composite_rom_ram, view.ram);
}

#[test]
fn cpc6128_starts_with_roms_and_config_0() {
    let mem = MemoryCpc6128::new(&marked_roms());
    assert_eq!(mem.read_byte(0x0000), 0x81);
    assert_eq!(mem.read_byte(0xC000), 0x82);
    assert_eq!(mem.read_byte(0x8000), 0x00);
    assert_eq!(mem.ram_config, 0);
}

#[test]
fn cpc6128_resolves_addresses_through_the_config_table() {
    let mut mem = MemoryCpc6128::new(&marked_roms());
    assert_eq!(mem.resolve_ram_address(0xC123), 0xC123);
    mem.set_ram_config(1);
    assert_eq!(mem.resolve_ram_address(0xC123), 7 * 0x4000 + 0x123);
    mem.set_ram_config(3);
    assert_eq!(mem.resolve_ram_address(0x4001), 3 * 0x4000 + 1);
    mem.set_ram_config(7);
    assert_eq!(mem.resolve_ram_address(0x7FFF), 7 * 0x4000 + 0x3FFF);
    mem.set_ram_config(2);
    assert_eq!(mem.resolve_ram_address(0x0000), 4 * 0x4000);
    // Addresses past 64K fall into the slot of their low 16 bits.
    assert_eq!(mem.resolve_ram_address(0x1_4005), 5 * 0x4000 + 5);
    mem.set_ram_config(0x0C);
    assert_eq!(mem.ram_config, 4);
    assert_eq!(mem.resolve_ram_address(0x4000), 4 * 0x4000);
}

#[test]
fn cpc6128_every_config_maps_slots_to_distinct_banks() {
    let mut mem = MemoryCpc6128::new(&marked_roms());
    for config in 0..8u8 {
        mem.set_ram_config(config);
        let mut seen = Vec::new();
        for slot in 0..4usize {
            let phys = mem.resolve_ram_address(slot * 0x4000);
            assert!(phys < 0x20000);
            assert_eq!(phys % 0x4000, 0);
            assert!(!seen.contains(&phys));
            seen.push(phys);
        }
        if config != 2 {
            assert_eq!(mem.resolve_ram_address(0x0000), 0);
            assert_eq!(mem.resolve_ram_address(0x8000), 2 * 0x4000);
        }
    }
}

#[test]
fn cpc6128_debug_view_walks_the_bank_mapping() {
    let mut mem = MemoryCpc6128::new(&marked_roms());
    mem.enable_lower_rom(false);
    mem.enable_upper_rom(false);
    for slot in 0..4 {
        mem.write_byte(slot * 0x4000 + 1, 0xA0 + slot as u8);
    }
    mem.set_ram_config(2);
    for slot in 0..4 {
        mem.write_byte(slot * 0x4000 + 1, 0xB0 + slot as u8);
    }
    let view = mem.debug_view();
    assert_eq!(view.ram.len(), 0x10000);
    assert_eq!(view.ram_extension.len(), 0x10000);
    assert_eq!(view.ram[1], 0xA0);
    assert_eq!(view.ram[0xC001], 0xA3);
    assert_eq!(view.ram_extension[1], 0xB0);
    assert_eq!(view.ram_extension[0xC001], 0xB3);
    assert_eq!(view.composite_ram[1], 0xB0);
    assert_eq!(view.composite_ram[0x4001], 0xB1);
    assert_eq!(view.composite_rom_ram, view.composite_ram);
    mem.enable_lower_rom(true);
    mem.enable_upper_rom(true);
    mem.select_upper_rom(7);
    let view = mem.debug_view();
    for address in 0..0x10000 {
        assert_eq!(view.composite_rom_ram[address], mem.read_byte(address));
    }
    assert_eq!(view.composite_rom_ram[0xC001], 0xD0);
    assert_eq!(view.composite_ram[0xC001], 0xB3);
}

#[test]
fn cpc6128_forced_ram_read_sees_banked_ram() {
    let mut mem = MemoryCpc6128::new(&marked_roms());
    mem.set_ram_config(1);
    mem.write_byte(0xC010, 0x5C);
    assert_eq!(mem.read_byte(0xC010), 0x82);
    mem.force_ram_read(true);
    assert_eq!(mem.read_byte(0xC010), 0x5C);
    // Selecting an absent upper ROM shows banked RAM too.
    mem.force_ram_read(false);
    mem.select_upper_rom(1);
    assert_eq!(mem.read_byte(0xC010), 0x5C);
}

#[test]
fn cpc6128_word_round_trip_in_ram() {
    let mut mem = MemoryCpc6128::new(&marked_roms());
    mem.set_ram_config(3);
    mem.write_word(0x7FFF, 0x1357);
    assert_eq!(mem.read_word(0x7FFF), 0x1357);
    assert_eq!(mem.read_byte(0x7FFF), 0x57);
    assert_eq!(mem.read_byte(0x8000), 0x13);
}

#[test]
fn any_memory_dispatches_to_its_model() {
    let mut x64 = AnyMemory::CpcX64(MemoryCpcX64::new(CpcModel::Cpc464, &marked_roms()));
    let mut m6128 = AnyMemory::Cpc6128(MemoryCpc6128::new(&marked_roms()));
    assert_eq!(x64.read_byte(0), 0x41);
    assert_eq!(m6128.read_byte(0), 0x81);
    x64.write_word(0x4000, 0x0102);
    m6128.write_word(0x4000, 0x0304);
    assert_eq!(x64.read_word(0x4000), 0x0102);
    assert_eq!(m6128.read_word(0x4000), 0x0304);
    x64.set_ram_config(2);
    m6128.set_ram_config(2);
    assert_eq!(x64.read_word(0x4000), 0x0102);
    assert_eq!(m6128.read_word(0x4000), 0x0000);
    x64.enable_lower_rom(false);
    m6128.enable_lower_rom(false);
    x64.write_byte(0, 0xEE);
    assert_eq!(x64.read_byte(0), 0xEE);
    m6128.enable_upper_rom(false);
    m6128.write_byte(0xC000, 0xDD);
    assert_eq!(m6128.read_byte(0xC000), 0xDD);
    m6128.enable_upper_rom(true);
    m6128.select_upper_rom(7);
    assert_eq!(m6128.read_byte(0xC000), 0xD0);
    m6128.force_ram_read(true);
    assert_eq!(m6128.read_byte(0xC000), 0xDD);
    let view = x64.debug_view();
    assert_eq!(view.composite_rom_ram[0], 0xEE);
    let view = m6128.debug_view();
    assert_eq!(view.ram_extension.len(), 0x10000);
}

#[test]
fn test_memory_hands_out_values_in_order_then_zero() {
    let mut mem = TestMemory::new(vec![0x10, 0x20, 0x30]);
    assert_eq!(mem.read_byte(0x1234), 0x10);
    mem.write_byte(0, 0xFF);
    assert_eq!(mem.read_byte(0), 0x20);
    assert_eq!(mem.read_byte(0), 0x30);
    assert_eq!(mem.read_byte(0), 0x00);
    assert_eq!(mem.read_byte(0), 0x00);
    let mem = TestMemory::new(vec![0x34, 0x12]);
    assert_eq!(mem.read_word(0), 0x1234);
    let mem = TestMemory::default();
    assert_eq!(mem.read_byte(0), 0x00);
}

#[test]
fn ram_from_bytes_last_byte_may_land_at_the_top_address() {
    let ram = Ram::from_bytes(8, &[1, 2, 3], usize::MAX - 2);
    // usize::MAX - 2, - 1 and usize::MAX wrap to cells 5, 6 and 7.
    assert_eq!(ram.debug_view().data, vec![0, 0, 0, 0, 0, 1, 2, 3]);
}

#[test]
fn smaller_power_of_two_roms_wrap_and_snapshot_when_not_laid_over() {
    let mut roms = marked_roms();
    let mut small_os = vec![0x11; 0x2000];
    small_os[1] = 0x22;
    roms.os_464 = small_os;
    let mut mem = MemoryCpcX64::new(CpcModel::Cpc464, &roms);
    assert_eq!(mem.read_byte(0x0001), 0x22);
    assert_eq!(mem.read_byte(0x2001), 0x22);
    assert_eq!(mem.read_byte(0x2000), 0x11);
    mem.enable_lower_rom(false);
    let view = mem.debug_view();
    assert_eq!(view.lower_rom.len(), 0x2000);
    assert_eq!(view.composite_rom_ram[0x0001], 0x00);
    assert_eq!(view.composite_rom_ram[0xC000], 0x42);
}

#[test]
fn cpc6128_under_config_0_reads_like_a_64k_machine() {
    let roms = marked_roms();
    let mut m6 = MemoryCpc6128::new(&roms);
    let mut mx = MemoryCpcX64::new(CpcModel::Cpc6128, &roms);
    for (address, value) in [(0x0010usize, 0x01u8), (0x4321, 0x02), (0x8765, 0x03), (0xC000, 0x04), (0x1_0005, 0x05)] {
        m6.write_byte(address, value);
        mx.write_byte(address, value);
    }
    m6.write_word(0x7FFF, 0xABCD);
    mx.write_word(0x7FFF, 0xABCD);
    m6.set_ram_config(8);
    for step in 0..4 {
        match step {
            1 => {
                m6.enable_lower_rom(false);
                mx.enable_lower_rom(false);
            }
            2 => {
                m6.select_upper_rom(7);
                mx.select_upper_rom(7);
            }
            3 => {
                m6.force_ram_read(true);
                mx.force_ram_read(true);
            }
            _ => {}
        }
        for address in (0..0x1_2000).step_by(0x101) {
            assert_eq!(m6.read_byte(address), mx.read_byte(address));
        }
        for address in [0x0005usize, 0x0010, 0x4321, 0x7FFF, 0x8000, 0x8765, 0xC000, 0x1_0005] {
            assert_eq!(m6.read_byte(address), mx.read_byte(address));
        }
    }
}
