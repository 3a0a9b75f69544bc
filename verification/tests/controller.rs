use gameboy::cartridge::write_through;
use gameboy::cartridge::BootRom;
use gameboy::cartridge::Cartridge;
use gameboy::cartridge::CartridgeType;
use gameboy::cartridge::Controller;
use gameboy::cartridge::RamSize;
use gameboy::cartridge::RomSize;
use gameboy::error::Error;
use gameboy::error::HeaderField;
use gameboy::error::Store;
use gameboy::memory::MemoryRead;
use gameboy::memory::MemoryWrite;

/// The byte that the test images hold at `offset`: the bank's number in
/// the first byte of each bank, a running pattern after it.
fn pattern(offset: usize) -> u8 {
    ((offset / 16384) as u8) ^ ((offset % 16384 % 251) as u8)
}

/// A ROM image of `banks` banks with the given header codes.
fn rom_image(cartridge_type: u8, rom_size: u8, ram_size: u8, banks: usize) -> Vec<u8> {
    let mut image = vec![0u8; banks * 16384];
    for i in 0..image.len() {
        image[i] = pattern(i);
    }
    image[0x147] = cartridge_type;
    image[0x148] = rom_size;
    image[0x149] = ram_size;
    image
}

fn controller(cartridge_type: u8, rom_size: u8, ram_size: u8, banks: usize) -> Controller {
    let cartridge = Cartridge::from_image(rom_image(cartridge_type, rom_size, ram_size, banks), None);
    Controller::from_cartridge(cartridge).ok().unwrap()
}

#[test]
fn mbc1_large_rom_simple_mode() {
    let mut c = controller(0x01, 0x06, 0x00, 128);
    assert!(c.accepts(0x2100, 0x05));
    c.write(0x2100u16, 0x05u8);
    assert!(c.accepts(0x4000, 0x02));
    c.write(0x4000u16, 0x02u8);
    assert_eq!(c.rom.active_bank_1, 69);
    assert_eq!(((2 << 5) | 5) * 16384, 1130496);
    assert_eq!(c.read(0x4000u16), c.rom.data[1130496]);
    assert_eq!(c.read(0x4000u16), pattern(1130496));
    assert_eq!(c.read(0x4000u16), 69);
    assert_eq!(c.read(0x0000u16), c.rom.data[0]);
    assert_eq!(c.rom.active_bank_0, 0);
}

#[test]
fn mbc1_low_bits_keep_the_upper_two() {
    let mut c = controller(0x01, 0x06, 0x00, 128);
    c.write(0x4000u16, 0x03u8);
    assert_eq!(c.rom.active_bank_1, 0x61);
    c.write(0x2000u16, 0x1Fu8);
    assert_eq!(c.rom.active_bank_1, 0x7F);
    c.write(0x3FFFu16, 0xE2u8);
    assert_eq!(c.rom.active_bank_1, 0x62);
    c.write(0x5FFFu16, 0x01u8);
    assert_eq!(c.rom.active_bank_1, 0x22);
    assert_eq!(c.read(0x4001u16), pattern(0x22 * 16384 + 1));
}

#[test]
fn mbc1_advanced_mode_bank_0_aliasing() {
    let mut c = controller(0x01, 0x06, 0x00, 128);
    assert!(c.ram.is_none());
    c.write(0x6000u16, 0x01u8);
    assert!(c.banking_mode);
    assert!(c.accepts(0x4000, 0x02));
    c.write(0x4000u16, 0x02u8);
    assert_eq!(c.rom.active_bank_0, 0x40);
    assert_eq!(c.rom.active_bank_1, 1);
    assert_eq!(c.read(0x0000u16), c.rom.data[0x40 * 16384]);
    assert_eq!(c.read(0x0000u16), 0x40);
    assert_eq!(c.read(0x0123u16), pattern(0x40 * 16384 + 0x123));
}

#[test]
fn mbc1_advanced_mode_selects_each_low_bank() {
    let mut c = controller(0x01, 0x06, 0x00, 128);
    c.write(0x7FFFu16, 0xFFu8);
    for (value, bank) in [(0u8, 0u16), (1, 0x20), (2, 0x40), (3, 0x60), (0xFE, 0x40)] {
        c.write(0x4000u16, value);
        assert_eq!(c.rom.active_bank_0, bank);
        assert_eq!(c.ram_rom_bank, value & 3);
        assert_eq!(c.read(0x0000u16), bank as u8);
    }
    assert_eq!(c.rom.active_bank_1, 1);
}

#[test]
fn mbc1_mode_select_is_ignored_on_small_cartridges() {
    let mut c = controller(0x02, 0x04, 0x02, 32);
    c.write(0x6000u16, 0x01u8);
    assert!(!c.banking_mode);
    c.write(0x4000u16, 0x03u8);
    assert_eq!(c.ram_rom_bank, 3);
    assert_eq!(c.rom.active_bank_0, 0);
    assert_eq!(c.rom.active_bank_1, 1);
    assert_eq!(c.ram.as_ref().unwrap().active_bank, 0);
}

#[test]
fn mbc1_mode_select_reads_bit_0() {
    let mut c = controller(0x01, 0x05, 0x00, 64);
    c.write(0x6000u16, 0xFEu8);
    assert!(!c.banking_mode);
    c.write(0x6000u16, 0x03u8);
    assert!(c.banking_mode);
    c.write(0x6000u16, 0x00u8);
    assert!(!c.banking_mode);
}

#[test]
fn mbc1_large_ram_bank_select() {
    let mut c = controller(0x03, 0x04, 0x03, 32);
    c.write(0x4000u16, 0x02u8);
    assert_eq!(c.ram.as_ref().unwrap().active_bank, 2);
    assert_eq!(c.ram_rom_bank, 2);
    assert_eq!(c.rom.active_bank_1, 1);
    assert_eq!(c.rom.active_bank_0, 0);
    c.write(0x0000u16, 0x0Au8);
    c.write(0xA000u16, 0x5Au8);
    assert_eq!(c.ram.as_ref().unwrap().data[2 * 8192], 0x5A);
}

#[test]
fn mbc1_switch_to_advanced_applies_the_stored_ram_bank() {
    let mut c = controller(0x03, 0x04, 0x03, 32);
    c.write(0x4000u16, 0x03u8);
    c.ram.as_mut().unwrap().set_bank(0);
    // RAM disabled: the mode changes, the bank stays.
    c.write(0x6000u16, 0x01u8);
    assert!(c.banking_mode);
    assert_eq!(c.ram.as_ref().unwrap().active_bank, 0);
    // RAM enabled: the stored bank is applied.
    c.write(0x0000u16, 0x0Au8);
    c.write(0x6000u16, 0x01u8);
    assert_eq!(c.ram.as_ref().unwrap().active_bank, 3);
    // Back to simple mode: nothing is applied.
    c.ram.as_mut().unwrap().set_bank(1);
    c.write(0x6000u16, 0x00u8);
    assert!(!c.banking_mode);
    assert_eq!(c.ram.as_ref().unwrap().active_bank, 1);
}

#[test]
fn mbc1_ram_enable_reads_the_low_nibble() {
    let mut c = controller(0x02, 0x01, 0x02, 4);
    assert!(!c.ram_enable);
    c.write(0x0000u16, 0x0Au8);
    assert!(c.ram_enable);
    c.write(0x1FFFu16, 0x00u8);
    assert!(!c.ram_enable);
    c.write(0x1000u16, 0xFAu8);
    assert!(c.ram_enable);
    c.write(0x1000u16, 0x0Bu8);
    assert!(!c.ram_enable);
}

#[test]
fn mbc3_rtc_latch() {
    let mut c = controller(0x10, 0x06, 0x03, 128);
    c.write(0x0000u16, 0x0Au8);
    c.write(0x4000u16, 0x08u8);
    assert!(c.rtc_active);
    // The clock shows 30 seconds when it is latched.
    c.write(0xA000u16, 30u8);
    c.write(0x6000u16, 0x00u8);
    c.write(0x6000u16, 0x01u8);
    // The live register moves on; the latched one is read.
    c.write(0xA000u16, 31u8);
    assert_eq!(c.read(0xA000u16), 30);
    assert_eq!(c.rtc.unwrap().live.seconds, 31);
    // A second write of 1 does not latch.
    c.write(0x6000u16, 0x01u8);
    assert_eq!(c.read(0xA000u16), 30);
    // The next change from 0 to 1 does.
    c.write(0x6000u16, 0x00u8);
    assert_eq!(c.read(0xA000u16), 30);
    c.write(0x6000u16, 0x01u8);
    assert_eq!(c.read(0xA000u16), 31);
}

#[test]
fn mbc3_selects_ram_banks_and_clock_registers() {
    let mut c = controller(0x10, 0x06, 0x03, 128);
    c.write(0x0000u16, 0x0Au8);
    for (register, value) in [(0x08u8, 1u8), (0x09, 2), (0x0A, 3), (0x0B, 4), (0x0C, 5)] {
        c.write(0x4000u16, register);
        assert!(c.rtc_active);
        assert_eq!(c.rtc.unwrap().selected, register);
        c.write(0xA000u16, value);
    }
    let live = c.rtc.unwrap().live;
    assert_eq!(
        (live.seconds, live.minutes, live.hours, live.days_low, live.days_high),
        (1, 2, 3, 4, 5)
    );
    // Values 4 to 7 and 13 to 15 are ignored.
    for value in [0x04u8, 0x07, 0x0D, 0x0F] {
        c.write(0x4000u16, value);
        assert!(c.rtc_active);
        assert_eq!(c.rtc.unwrap().selected, 0x0C);
    }
    // Only the low nibble is read.
    c.write(0x5FFFu16, 0xF2u8);
    assert!(!c.rtc_active);
    assert_eq!(c.ram.as_ref().unwrap().active_bank, 2);
    c.write(0xBFFFu16, 0x77u8);
    assert_eq!(c.read(0xBFFFu16), 0x77);
    assert_eq!(c.ram.as_ref().unwrap().data[2 * 8192 + 0x1FFF], 0x77);
}

#[test]
fn mbc3_without_a_clock_ignores_clock_selects() {
    let mut c = controller(0x13, 0x04, 0x03, 32);
    assert!(c.rtc.is_none());
    c.write(0x0000u16, 0x0Au8);
    c.write(0x4000u16, 0x08u8);
    assert!(!c.rtc_active);
    c.write(0x6000u16, 0x01u8);
    c.write(0xA000u16, 0x12u8);
    assert_eq!(c.read(0xA000u16), 0x12);
}

#[test]
fn mbc3_ram_enable_wants_exactly_0x0a() {
    let mut c = controller(0x13, 0x04, 0x03, 32);
    c.write(0x0000u16, 0x0Au8);
    assert!(c.ram_enable);
    c.write(0x0000u16, 0x1Au8);
    assert!(!c.ram_enable);
}

#[test]
fn mbc3_rom_bank_has_seven_bits() {
    let mut c = controller(0x11, 0x06, 0x00, 128);
    c.write(0x2000u16, 0x7Fu8);
    assert_eq!(c.rom.active_bank_1, 0x7F);
    c.write(0x2000u16, 0x85u8);
    assert_eq!(c.rom.active_bank_1, 0x05);
    assert_eq!(c.read(0x4000u16), 0x05);
    c.write(0x3FFFu16, 0x80u8);
    assert_eq!(c.rom.active_bank_1, 0x01);
}

#[test]
fn mbc5_nine_bit_rom_bank() {
    let mut c = controller(0x19, 0x08, 0x00, 512);
    c.write(0x2000u16, 0x00u8);
    assert_eq!(c.rom.active_bank_1, 0x000);
    c.write(0x3000u16, 0x01u8);
    assert_eq!(c.rom.active_bank_1, 0x100);
    assert_eq!(c.read(0x4001u16), pattern(0x100 * 16384 + 1));
    c.write(0x2FFFu16, 0xABu8);
    assert_eq!(c.rom.active_bank_1, 0x1AB);
    c.write(0x3FFFu16, 0xFEu8);
    assert_eq!(c.rom.active_bank_1, 0x0AB);
    assert_eq!(c.read(0x4000u16), 0xAB);
}

#[test]
fn mbc5_ram_bank_and_enable() {
    let mut c = controller(0x1B, 0x05, 0x04, 64);
    c.write(0x4000u16, 0x1Fu8);
    assert_eq!(c.ram.as_ref().unwrap().active_bank, 15);
    c.write(0x5FFFu16, 0x07u8);
    assert_eq!(c.ram.as_ref().unwrap().active_bank, 7);
    c.write(0x0000u16, 0x0Au8);
    assert!(c.ram_enable);
    c.write(0x0000u16, 0x1Au8);
    assert!(!c.ram_enable);
    // 0x6000-0x7FFF means nothing to an MBC5.
    c.write(0x6000u16, 0x01u8);
    assert!(!c.banking_mode);
}

#[test]
fn mbc2_address_bit_selector() {
    let mut c = controller(0x05, 0x03, 0x00, 16);
    c.write(0x0000u16, 0x0Au8);
    assert!(c.ram_enable);
    assert_eq!(c.rom.active_bank_1, 1);
    c.write(0x0100u16, 0x03u8);
    assert_eq!(c.rom.active_bank_1, 3);
    assert!(c.ram_enable);
    assert_eq!(c.read(0x4000u16), 3);
    // Bit 8 decides all over 0x0000-0x3FFF.
    c.write(0x3F00u16, 0x05u8);
    assert_eq!(c.rom.active_bank_1, 5);
    c.write(0x3E00u16, 0x00u8);
    assert_eq!(c.rom.active_bank_1, 5);
    assert!(!c.ram_enable);
    c.write(0x21FFu16, 0xF7u8);
    assert_eq!(c.rom.active_bank_1, 7);
    // Above 0x3FFF nothing is heard.
    c.write(0x4100u16, 0x02u8);
    assert_eq!(c.rom.active_bank_1, 7);
}

#[test]
fn mbc2_ram_is_a_nibble_wide() {
    let mut c = controller(0x06, 0x03, 0x01, 16);
    c.write(0x0000u16, 0x0Au8);
    c.write(0xA000u16, 0xABu8);
    assert_eq!(c.ram.as_ref().unwrap().data[0], 0x0B);
    assert_eq!(c.read(0xA000u16), 0xFB);
    assert_eq!(c.read(0xA001u16), 0xF0);
}

#[test]
fn zero_selects_bank_one() {
    for cartridge_type in [0x01u8, 0x11] {
        for addr in [0x2000u16, 0x2ABC, 0x3FFF] {
            let mut c = controller(cartridge_type, 0x04, 0x00, 32);
            c.write(0x2000u16, 0x07u8);
            assert_eq!(c.rom.active_bank_1, 7);
            c.write(addr, 0x00u8);
            assert_eq!(c.rom.active_bank_1, 1);
        }
    }
    for addr in [0x0100u16, 0x2100, 0x3FFF] {
        let mut c = controller(0x05, 0x03, 0x00, 16);
        c.write(0x0100u16, 0x07u8);
        c.write(addr, 0x00u8);
        assert_eq!(c.rom.active_bank_1, 1);
    }
    // Masked to zero is zero too.
    let mut c = controller(0x01, 0x04, 0x00, 32);
    c.write(0x2000u16, 0xE0u8);
    assert_eq!(c.rom.active_bank_1, 1);
    let mut c = controller(0x11, 0x04, 0x00, 32);
    c.write(0x2000u16, 0x80u8);
    assert_eq!(c.rom.active_bank_1, 1);
    let mut c = controller(0x05, 0x03, 0x00, 16);
    c.write(0x0100u16, 0xF0u8);
    assert_eq!(c.rom.active_bank_1, 1);
}

#[test]
fn mbc1_zero_with_upper_bits_set_is_not_bank_zero() {
    let mut c = controller(0x01, 0x06, 0x00, 128);
    c.write(0x4000u16, 0x02u8);
    c.write(0x2000u16, 0x00u8);
    assert_eq!(c.rom.active_bank_1, 0x41);
}

#[test]
fn ram_gating() {
    for cartridge_type in [0x03u8, 0x09, 0x13, 0x1B, 0x06] {
        let mut c = controller(cartridge_type, 0x04, 0x03, 32);
        c.ram.as_mut().unwrap().data[0x10] = 0x5A;
        c.ram_enable = true;
        let before: Vec<u8> = (0xA000..=0xBFFFu16).map(|addr| c.read(addr)).collect();
        c.ram_enable = false;
        for addr in [0xA000u16, 0xA010, 0xB123, 0xBFFF] {
            c.write(addr, 0xA5u8);
        }
        assert!(c.ram.as_ref().unwrap().unsaved.is_empty());
        assert_eq!(c.ram.as_ref().unwrap().data[0x10], 0x5A);
        assert_eq!(c.ram.as_ref().unwrap().data[0], 0);
        c.ram_enable = true;
        let after: Vec<u8> = (0xA000..=0xBFFFu16).map(|addr| c.read(addr)).collect();
        assert_eq!(before, after);
    }
}

#[test]
fn disabled_ram_reads_as_open_bus() {
    let mut c = controller(0x03, 0x04, 0x03, 32);
    c.ram.as_mut().unwrap().data[0] = 0x12;
    assert_eq!(c.read(0xA000u16), 0xFF);
    c.write(0x0000u16, 0x0Au8);
    assert_eq!(c.read(0xA000u16), 0x12);
    c.write(0x0000u16, 0x00u8);
    assert_eq!(c.read(0xA000u16), 0xFF);
}

#[test]
fn missing_ram_reads_as_open_bus() {
    let mut c = controller(0x01, 0x04, 0x00, 32);
    c.write(0x0000u16, 0x0Au8);
    assert!(c.ram_enable);
    c.write(0xA000u16, 0x12u8);
    assert_eq!(c.read(0xA000u16), 0xFF);
    assert_eq!(c.read(0xBFFFu16), 0xFF);
}

#[test]
fn small_ram_answers_only_where_it_has_bytes() {
    let mut c = controller(0x02, 0x04, 0x01, 32);
    c.write(0x0000u16, 0x0Au8);
    c.write(0xA7FFu16, 0x21u8);
    c.write(0xA800u16, 0x22u8);
    assert_eq!(c.read(0xA7FFu16), 0x21);
    assert_eq!(c.read(0xA800u16), 0xFF);
    assert_eq!(c.ram.as_ref().unwrap().data.len(), 2048);
    assert_eq!(c.ram.as_ref().unwrap().data[0x7FF], 0x21);
}

#[test]
fn plain_rom_ignores_control_writes() {
    for cartridge_type in [0x00u8, 0x08, 0x09] {
        let mut c = controller(cartridge_type, 0x00, 0x02, 2);
        for addr in [0x0000u16, 0x2000, 0x4000, 0x6000, 0x7FFF] {
            assert!(c.accepts(addr, 0x0A));
            c.write(addr, 0x0Au8);
        }
        assert!(!c.ram_enable);
        assert!(!c.banking_mode);
        assert_eq!(c.rom.active_bank_0, 0);
        assert_eq!(c.rom.active_bank_1, 1);
        assert_eq!(c.ram.as_ref().unwrap().active_bank, 0);
        assert_eq!(c.read(0x4000u16), 1);
        // With the flag set by hand the RAM takes the write.
        c.ram_enable = true;
        c.write(0xA000u16, 0x33u8);
        assert_eq!(c.read(0xA000u16), 0x33);
    }
}

#[test]
fn writes_elsewhere_change_nothing() {
    let mut c = controller(0x03, 0x04, 0x03, 32);
    c.write(0x0000u16, 0x0Au8);
    for addr in [0x8000u16, 0x9FFF, 0xC000, 0xFE00, 0xFF04, 0xFFFF] {
        assert!(c.accepts(addr, 0xFF));
        c.write(addr, 0xFFu8);
    }
    assert!(c.ram_enable);
    assert_eq!(c.rom.active_bank_1, 1);
    assert!(c.ram.as_ref().unwrap().data.iter().all(|byte| *byte == 0));
}

#[test]
fn bank_outside_the_rom_is_not_accepted() {
    let c = controller(0x01, 0x01, 0x00, 4);
    assert!(c.accepts(0x2000, 0x03));
    assert!(!c.accepts(0x2000, 0x04));
    assert!(!c.accepts(0x3FFF, 0x1F));
    assert!(c.accepts(0x2000, 0x20));
    assert_eq!(c.banks_after(0x2000, 0x04), (0, 4));
    assert_eq!(c.banks_after(0x2000, 0x20), (0, 1));

    let c = controller(0x19, 0x04, 0x00, 32);
    assert!(c.accepts(0x2000, 0x1F));
    assert!(!c.accepts(0x2000, 0x20));
    assert!(!c.accepts(0x3000, 0x01));
    assert!(c.accepts(0x3000, 0x02));

    let c = controller(0x11, 0x03, 0x00, 16);
    assert!(!c.accepts(0x2000, 0x10));
    let c = controller(0x05, 0x02, 0x00, 8);
    assert!(!c.accepts(0x0100, 0x08));
    assert!(c.accepts(0x0000, 0x08));

    // 72 banks: the upper bits can point past the end.
    let c = controller(0x01, 0x52, 0x00, 72);
    assert!(c.accepts(0x4000, 0x02));
    assert!(!c.accepts(0x4000, 0x03));
}

#[test]
fn bank_indices_stay_in_bounds() {
    let cases = [
        (0x03u8, 0x06u8, 0x03u8, 128usize),
        (0x03, 0x01, 0x03, 4),
        (0x06, 0x03, 0x01, 16),
        (0x10, 0x06, 0x03, 128),
        (0x1B, 0x08, 0x04, 512),
        (0x1B, 0x02, 0x05, 8),
        (0x09, 0x00, 0x02, 2),
        (0x17, 0x04, 0x03, 32),
    ];
    for (cartridge_type, rom_size, ram_size, banks) in cases {
        let mut c = controller(cartridge_type, rom_size, ram_size, banks);
        let mut state: u32 = 0x1234_5678 ^ banks as u32;
        for _ in 0..4000 {
            state = state.wrapping_mul(1664525).wrapping_add(1013904223);
            let addr = (state >> 8) as u16;
            let value = (state >> 24) as u8;
            if c.accepts(addr, value) {
                c.write(addr, value);
            }
            assert!((c.rom.active_bank_0 as usize) < banks);
            assert!((c.rom.active_bank_1 as usize) < banks);
            let ram = c.ram.as_ref().unwrap();
            assert!(ram.active_bank < ram.num_banks);
            assert_eq!(c.rom.num_banks as usize, banks);
        }
    }
}

#[test]
fn default_controller() {
    let c = Controller::new();
    assert_eq!(c.cartridge_type, CartridgeType::Mbc1);
    assert_eq!(c.rom_size, RomSize::_32K);
    assert_eq!(c.ram_size, RamSize::_8K);
    assert_eq!(c.rom.data.len(), 32768);
    assert_eq!(c.ram.as_ref().unwrap().data.len(), 8192);
    assert!(c.boot_rom.is_none());
    assert!(c.rtc.is_none());
    assert!(!c.rtc_active);
    assert!(!c.banking_mode);
    assert!(!c.ram_enable);
    assert_eq!(c.ram_rom_bank, 0);
    assert_eq!(c.read(0x0000u16), 0);
}

#[test]
fn controller_starts_as_the_header_says() {
    let mut image = rom_image(0x10, 0x01, 0x03, 4);
    let boot = BootRom::new([7u8; 256]);
    image[0x10] = 0xEE;
    let mut cartridge = Cartridge::from_image(image.clone(), Some(boot));
    cartridge.clock = vec![1, 2, 3, 4, 5, 6];
    let c = Controller::from_cartridge(cartridge).ok().unwrap();
    assert_eq!(c.cartridge_type, CartridgeType::Mbc3TimerRamBattery);
    assert_eq!(c.rom_size, RomSize::_64K);
    assert_eq!(c.ram_size, RamSize::_32K);
    assert_eq!(c.rom.data, image);
    assert_eq!(c.rom.active_bank_0, 0);
    assert_eq!(c.rom.active_bank_1, 1);
    assert_eq!(c.boot_rom.as_ref().unwrap().data, [7u8; 256]);
    let ram = c.ram.as_ref().unwrap();
    assert!(ram.battery);
    assert!(ram.data.iter().all(|byte| *byte == 0));
    let rtc = c.rtc.unwrap();
    assert_eq!(rtc.live.seconds, 1);
    assert_eq!(rtc.live.days_high, 5);
    assert_eq!(rtc.latch_write, 6);
    assert_eq!(rtc.selected, 0x08);
    assert!(!c.ram_enable && !c.rtc_active && !c.banking_mode);
    assert_eq!(c.ram_rom_bank, 0);
}

#[test]
fn controller_without_battery_or_clock() {
    let mut cartridge = Cartridge::from_image(rom_image(0x02, 0x00, 0x02, 2), None);
    cartridge.save = vec![9u8; 8192];
    let c = Controller::from_cartridge(cartridge).ok().unwrap();
    let ram = c.ram.as_ref().unwrap();
    assert!(!ram.battery);
    assert!(ram.data.iter().all(|byte| *byte == 0));
    assert!(c.rtc.is_none());

    let c = controller(0x0F, 0x00, 0x00, 2);
    assert!(c.ram.is_none());
    assert!(c.rtc.is_some());
}

#[test]
fn controller_is_refused_for_the_first_fault() {
    let cartridge = Cartridge::from_image(rom_image(0x04, 0x09, 0x06, 2), None);
    assert_eq!(
        Controller::from_cartridge(cartridge).err(),
        Some(Error::InvalidValue { field: HeaderField::CartridgeType, value: 0x04 })
    );
    let cartridge = Cartridge::from_image(rom_image(0x01, 0x09, 0x06, 2), None);
    assert_eq!(
        Controller::from_cartridge(cartridge).err(),
        Some(Error::InvalidValue { field: HeaderField::RomSize, value: 0x09 })
    );
    let cartridge = Cartridge::from_image(rom_image(0x01, 0x01, 0x06, 2), None);
    assert_eq!(
        Controller::from_cartridge(cartridge).err(),
        Some(Error::InvalidValue { field: HeaderField::RamSize, value: 0x06 })
    );
    let cartridge = Cartridge::from_image(rom_image(0x01, 0x01, 0x02, 2), None);
    assert_eq!(
        Controller::from_cartridge(cartridge).err(),
        Some(Error::Io { expected: 65536, found: 32768 })
    );
    let cartridge = Cartridge::from_image(rom_image(0x01, 0x01, 0x02, 5), None);
    assert!(Controller::from_cartridge(cartridge).is_ok());
}

#[test]
fn battery_round_trip() {
    let image = rom_image(0x03, 0x01, 0x02, 4);
    // First run: no save file yet.
    let cartridge = Cartridge::from_image(image.clone(), None);
    let mut c = Controller::from_cartridge(cartridge).ok().unwrap();
    let mut save_file = c.ram.as_ref().unwrap().save_image(&[], false);
    assert_eq!(save_file, vec![0u8; 8192]);
    c.write(0x0000u16, 0x0Au8);
    c.write(0xA000u16, 0x42u8);
    let writes = c.ram.as_mut().unwrap().take_unsaved();
    write_through(&mut save_file, &writes);
    assert_eq!(save_file[0], 0x42);
    // Second run, from the same ROM and the save file beside it.
    let mut cartridge = Cartridge::from_image(image, None);
    cartridge.save = save_file;
    let mut c = Controller::from_cartridge(cartridge).ok().unwrap();
    c.write(0x0000u16, 0x0Au8);
    assert_eq!(c.read(0xA000u16), 0x42);
    assert_eq!(c.read(0xA001u16), 0x00);
}

#[test]
fn reset_puts_in_new_ram_and_keeps_the_rest() {
    let mut cartridge = Cartridge::from_image(rom_image(0x03, 0x06, 0x03, 128), None);
    cartridge.save = vec![3u8; 32768];
    let mut c = Controller::from_cartridge(cartridge).ok().unwrap();
    c.write(0x0000u16, 0x0Au8);
    c.write(0x2000u16, 0x09u8);
    c.write(0x4000u16, 0x02u8);
    c.write(0xA000u16, 0x77u8);
    c.reset();
    let ram = c.ram.as_ref().unwrap();
    assert!(ram.data.iter().all(|byte| *byte == 0));
    assert_eq!(ram.active_bank, 0);
    assert!(!ram.battery);
    assert!(ram.unsaved.is_empty());
    assert_eq!(c.rom.active_bank_1, 9);
    assert!(c.ram_enable);
    assert_eq!(c.ram_rom_bank, 2);
    assert_eq!(c.read(0x4000u16), 9);

    let mut c = controller(0x01, 0x00, 0x00, 2);
    c.reset();
    assert!(c.ram.is_none());
}

#[test]
fn load_puts_the_rom_back() {
    let image = rom_image(0x03, 0x01, 0x02, 4);
    let mut c = Controller::from_cartridge(Cartridge::from_image(image.clone(), None)).ok().unwrap();
    c.write(0x0000u16, 0x0Au8);
    c.write(0xA000u16, 0x42u8);
    c.write(0x2000u16, 0x03u8);
    // A restored controller comes without its ROM and without its save file.
    c.rom.data = Vec::new();
    c.ram.as_mut().unwrap().battery = false;
    c.ram.as_mut().unwrap().unsaved = Vec::new();
    assert_eq!(c.load(&image), Ok(()));
    assert_eq!(c.rom.data, image);
    assert_eq!(c.rom.active_bank_1, 3);
    let ram = c.ram.as_ref().unwrap();
    assert!(ram.battery);
    assert_eq!(ram.data[0], 0x42);
    assert_eq!(c.read(0xA000u16), 0x42);
}

#[test]
fn load_refuses_a_short_image() {
    let image = rom_image(0x03, 0x01, 0x02, 4);
    let mut c = Controller::from_cartridge(Cartridge::from_image(image.clone(), None)).ok().unwrap();
    c.ram.as_mut().unwrap().battery = false;
    assert_eq!(
        c.load(&image[..65535]),
        Err(Error::Io { expected: 65536, found: 65535 })
    );
    assert_eq!(c.rom.data, image);
    assert!(!c.ram.as_ref().unwrap().battery);
}

#[test]
fn load_misses_the_ram_of_a_battery_cartridge() {
    let image = rom_image(0x03, 0x01, 0x02, 4);
    let mut c = Controller::from_cartridge(Cartridge::from_image(image.clone(), None)).ok().unwrap();
    c.ram = None;
    assert_eq!(c.load(&image), Err(Error::InvalidState { missing: Store::Ram }));
}

#[test]
fn load_misses_the_clock_of_a_clock_cartridge() {
    let image = rom_image(0x10, 0x01, 0x02, 4);
    let mut c = Controller::from_cartridge(Cartridge::from_image(image.clone(), None)).ok().unwrap();
    c.rtc = None;
    assert_eq!(c.load(&image), Err(Error::InvalidState { missing: Store::Rtc }));
    assert!(c.ram.as_ref().unwrap().battery);

    let image = rom_image(0x0F, 0x01, 0x00, 4);
    let mut c = Controller::from_cartridge(Cartridge::from_image(image.clone(), None)).ok().unwrap();
    assert_eq!(c.load(&image), Ok(()));
    c.rtc = None;
    assert_eq!(c.load(&image), Err(Error::InvalidState { missing: Store::Rtc }));
}

#[test]
fn well_formed_controllers() {
    let mut c = controller(0x10, 0x06, 0x03, 128);
    assert!(c.is_wf());
    c.write(0x0000u16, 0x0Au8);
    c.write(0x2000u16, 0x7Fu8);
    c.write(0x4000u16, 0x0Cu8);
    c.write(0xA000u16, 0x01u8);
    assert!(c.is_wf());
    assert!(Controller::new().is_wf());

    let broken: [fn(&mut Controller); 12] = [
        |c| c.rom.active_bank_1 = 128,
        |c| c.rom.active_bank_0 = 128,
        |c| c.rom.num_banks = 64,
        |c| c.rom.data.push(0),
        |c| c.rom_size = RomSize::_1M,
        |c| c.ram.as_mut().unwrap().active_bank = 4,
        |c| c.ram.as_mut().unwrap().num_banks = 8,
        |c| c.ram.as_mut().unwrap().data.truncate(100),
        |c| c.ram_size = RamSize::_8K,
        |c| c.ram = None,
        |c| c.rtc = None,
        |c| c.ram_rom_bank = 4,
    ];
    for (i, breaker) in broken.iter().enumerate() {
        let mut c = controller(0x10, 0x06, 0x03, 128);
        c.write(0x4000u16, 0x08u8);
        breaker(&mut c);
        assert!(!c.is_wf(), "case {}", i);
    }

    let mut c = controller(0x10, 0x06, 0x03, 128);
    c.rtc.as_mut().unwrap().selected = 0x0D;
    assert!(!c.is_wf());
    let mut c = controller(0x10, 0x06, 0x03, 128);
    c.ram.as_mut().unwrap().unsaved.push(gameboy::cartridge::SaveWrite { offset: 32768, value: 0 });
    assert!(!c.is_wf());
    let mut c = controller(0x10, 0x06, 0x03, 128);
    c.ram.as_mut().unwrap().unsaved.push(gameboy::cartridge::SaveWrite { offset: 32767, value: 0 });
    assert!(c.is_wf());
    // A clock that is not mapped may be missing.
    let mut c = controller(0x10, 0x06, 0x03, 128);
    c.rtc = None;
    assert!(c.is_wf());
}
