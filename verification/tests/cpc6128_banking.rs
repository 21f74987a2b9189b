use ronald_core::cpc6128::MemoryCpc6128;
use ronald_core::roms::RomImages;
use ronald_core::traits::MemManage;
use ronald_core::traits::MemRead;
use ronald_core::traits::MemWrite;

fn blank_roms() -> RomImages {
    RomImages {
        os_464: vec![0; 0x4000],
        basic_464: vec![0; 0x4000],
        os_664: vec![0; 0x4000],
        basic_664: vec![0; 0x4000],
        os_6128: vec![0; 0x4000],
        basic_6128: vec![0; 0x4000],
        amsdos: vec![0; 0x4000],
    }
}

fn fresh() -> MemoryCpc6128 {
    let mut mem = MemoryCpc6128::new(&blank_roms());
    // Suppress ROM overlays so writes/reads exercise the banking only.
    mem.enable_lower_rom(false);
    mem.enable_upper_rom(false);
    mem
}

#[test]
fn config_0_maps_banks_0_to_3() {
    let mut mem = fresh();
    // Write sentinel into each slot under config 0.
    for slot in 0..4 {
        let addr = slot * 0x4000;
        mem.write_byte(addr, (0xA0 + slot) as u8);
    }
    for slot in 0..4 {
        let addr = slot * 0x4000;
        assert_eq!(mem.read_byte(addr), (0xA0 + slot) as u8);
    }
}

#[test]
fn config_2_maps_banks_4_to_7() {
    let mut mem = fresh();
    // Write sentinel into each slot under config 0 (touches banks 0..=3).
    for slot in 0..4 {
        mem.write_byte(slot * 0x4000, (0xA0 + slot) as u8);
    }
    // Switch to config 2 (banks 4,5,6,7) and write distinct sentinels.
    mem.set_ram_config(2);
    for slot in 0..4 {
        mem.write_byte(slot * 0x4000, (0xB0 + slot) as u8);
    }
    // Each slot should read back the config-2 sentinel.
    for slot in 0..4 {
        assert_eq!(mem.read_byte(slot * 0x4000), (0xB0 + slot) as u8);
    }
    // Switch back: banks 0..=3 must still hold the config-0 sentinels.
    mem.set_ram_config(0);
    for slot in 0..4 {
        assert_eq!(mem.read_byte(slot * 0x4000), (0xA0 + slot) as u8);
    }
}

#[test]
fn config_1_swaps_slot_3_for_bank_7() {
    let mut mem = fresh();
    // Under config 0 slot 3 is bank 3. Write A there.
    mem.set_ram_config(0);
    mem.write_byte(0xC000, 0xAA);
    // Under config 1 slot 3 is bank 7. Write B there.
    mem.set_ram_config(1);
    mem.write_byte(0xC000, 0xBB);
    assert_eq!(mem.read_byte(0xC000), 0xBB);
    // Config 0: bank 3 sentinel survives.
    mem.set_ram_config(0);
    assert_eq!(mem.read_byte(0xC000), 0xAA);
    // Config 2: slot 3 is also bank 7 -> same B sentinel.
    mem.set_ram_config(2);
    assert_eq!(mem.read_byte(0xC000), 0xBB);
}

#[test]
fn slots_0_and_2_stay_on_banks_0_and_2_for_configs_3_to_7() {
    let mut mem = fresh();
    mem.set_ram_config(0);
    mem.write_byte(0x0000, 0x11);
    mem.write_byte(0x8000, 0x22);
    for config in 3..=7 {
        mem.set_ram_config(config);
        assert_eq!(mem.read_byte(0x0000), 0x11, "config {config} slot 0");
        assert_eq!(mem.read_byte(0x8000), 0x22, "config {config} slot 2");
    }
}

#[test]
fn ram_config_high_bits_are_masked() {
    let mut mem = fresh();
    // Bits above 0..=2 should not alter the RAM mapping.
    mem.write_byte(0xC000, 0x77);
    mem.set_ram_config(0b1111_1000); // config index = 0
    assert_eq!(mem.read_byte(0xC000), 0x77);
}
