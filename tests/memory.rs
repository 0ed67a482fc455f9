use gameboy::cartridge::{Cartridge, LoadError, RomBankMode};
use gameboy::memory::Memory;

fn rom(size: usize, kind: u8) -> Vec<u8> {
    let mut data = vec![0u8; size];
    data[0x147] = kind;
    for bank in 0..size / 0x4000 {
        data[bank * 0x4000 + 1] = bank as u8;
    }
    data
}

#[test]
fn load_rejects_large_image() {
    assert_eq!(Cartridge::from_bytes(vec![0u8; 0x200001]).err(), Some(LoadError::TooLarge));
}

#[test]
fn load_rejects_small_image() {
    assert_eq!(Cartridge::from_bytes(vec![0u8; 0x7FFF]).err(), Some(LoadError::TooSmall));
}

#[test]
fn load_rejects_unknown_controller() {
    assert_eq!(
        Cartridge::from_bytes(rom(0x8000, 0x04)).err(),
        Some(LoadError::UnsupportedMbc(0x04))
    );
}

#[test]
fn load_reads_controller_byte() {
    assert_eq!(Cartridge::from_bytes(rom(0x8000, 0)).unwrap().mode, RomBankMode::No);
    assert_eq!(Cartridge::from_bytes(rom(0x8000, 3)).unwrap().mode, RomBankMode::MBC1);
    assert_eq!(Cartridge::from_bytes(rom(0x8000, 6)).unwrap().mode, RomBankMode::MBC2);
}

#[test]
fn cartridge_is_zero_padded_to_two_mib() {
    let cart = Cartridge::from_bytes(rom(0x8000, 0)).unwrap();
    assert_eq!(cart.read(0x147), 0);
    assert_eq!(cart.read(0x4001), 1);
    assert_eq!(cart.read(0x8000), 0);
    assert_eq!(cart.read(0x1FFFFF), 0);
    assert_eq!(cart.read(0x200000), 0xFF);
}

#[test]
fn bank_past_small_image_reads_zero() {
    let mut mem = Memory::from_file(rom(0x8000, 1)).unwrap();
    mem.write(0x2000, 0x05);
    assert_eq!(mem.read(0x4001), 0);
}

#[test]
fn echo_ram_mirrors_work_ram() {
    let mut mem = Memory::from_file(rom(0x8000, 0)).unwrap();
    mem.write(0xC123, 0x42);
    assert_eq!(mem.read(0xE123), 0x42);
    assert_eq!(mem.read(0xC123), 0x42);
}

#[test]
fn echo_write_lands_below() {
    let mut mem = Memory::from_file(rom(0x8000, 0)).unwrap();
    mem.write(0xF000, 0x99);
    assert_eq!(mem.read(0xF000), 0x99);
    assert_eq!(mem.read(0xD000), 0x99);
}

#[test]
fn rom_writes_keep_cartridge() {
    let mut mem = Memory::from_file(rom(0x20000, 1)).unwrap();
    let before = mem.cart.data.clone();
    for a in [0x0000usize, 0x1FFF, 0x2000, 0x3FFF, 0x4000, 0x6000, 0x7FFF] {
        mem.write(a, 0xA5);
    }
    assert_eq!(mem.cart.data, before);
    assert_eq!(mem.read(0x0001), 0);
}

#[test]
fn mbc1_bank_select() {
    let mut data = rom(0x20000, 1);
    data[0x14000] = 0x77;
    data[0x4000] = 0x11;
    let mut mem = Memory::from_file(data).unwrap();
    mem.write(0x2000, 0x05);
    assert_eq!(mem.read(0x4000), 0x77);
    mem.write(0x2000, 0x00);
    assert_eq!(mem.read(0x4000), 0x11);
}

#[test]
fn mbc1_zero_bank_maps_to_next() {
    let mut mem = Memory::from_file(rom(0x200000, 1)).unwrap();
    for (hi, expected) in [(0u8, 0x01u8), (1, 0x21), (2, 0x41), (3, 0x61)] {
        mem.write(0x4000, hi);
        mem.write(0x2000, hi << 5);
        assert_eq!(mem.mbc.current_rom_bank, expected);
        assert_eq!(mem.read(0x4001), expected);
    }
}

#[test]
fn mbc1_ram_enable_and_bank() {
    let mut mem = Memory::from_file(rom(0x8000, 3)).unwrap();
    assert_eq!(mem.read(0xA000), 0xFF);
    mem.write(0xA000, 0x12);
    mem.write(0x0000, 0x0A);
    assert_eq!(mem.read(0xA000), 0x00);
    mem.write(0xA000, 0x12);
    assert_eq!(mem.read(0xA000), 0x12);
    mem.write(0x6000, 0x01);
    mem.write(0x4000, 0x02);
    assert_eq!(mem.mbc.current_ram_bank, 2);
    assert_eq!(mem.read(0xA000), 0x00);
    mem.write(0x0000, 0x00);
    assert_eq!(mem.read(0xA000), 0xFF);
}

#[test]
fn mbc2_bank_select_uses_address_bit_8() {
    let mut mem = Memory::from_file(rom(0x40000, 5)).unwrap();
    mem.write(0x2100, 0x03);
    assert_eq!(mem.mbc.current_rom_bank, 3);
    assert_eq!(mem.read(0x4001), 3);
    mem.write(0x2100, 0x10);
    assert_eq!(mem.mbc.current_rom_bank, 1);
    mem.write(0x0000, 0x0A);
    assert!(mem.mbc.enable_ram);
}

#[test]
fn no_mbc_ignores_bank_writes() {
    let mut mem = Memory::from_file(rom(0x8000, 0)).unwrap();
    mem.write(0x2000, 0x03);
    assert_eq!(mem.mbc.current_rom_bank, 1);
}

#[test]
fn div_write_resets() {
    let mut mem = Memory::from_file(rom(0x8000, 0)).unwrap();
    mem.divider = 0x1234;
    assert_eq!(mem.read(0xFF04), 0x12);
    mem.write(0xFF04, 0x77);
    assert_eq!(mem.read(0xFF04), 0);
}

#[test]
fn restricted_area_reads_ff_and_ignores_writes() {
    let mut mem = Memory::from_file(rom(0x8000, 0)).unwrap();
    mem.write(0xFEA0, 0x12);
    assert_eq!(mem.read(0xFEA0), 0xFF);
    assert_eq!(mem.read_force(0xFEA0), 0);
}

#[test]
fn ly_write_clears() {
    let mut mem = Memory::from_file(rom(0x8000, 0)).unwrap();
    mem.write_force(0xFF44, 0x50);
    mem.write(0xFF44, 0x20);
    assert_eq!(mem.read(0xFF44), 0);
}

#[test]
fn interrupt_flag_reads_upper_bits_set() {
    let mut mem = Memory::from_file(rom(0x8000, 0)).unwrap();
    mem.write(0xFF0F, 0xFF);
    assert_eq!(mem.read_force(0xFF0F), 0x1F);
    assert_eq!(mem.read(0xFF0F), 0xFF);
    mem.write(0xFF0F, 0x01);
    assert_eq!(mem.read(0xFF0F), 0xE1);
}

#[test]
fn dma_copies_page_into_oam() {
    let mut mem = Memory::from_file(rom(0x8000, 0)).unwrap();
    for i in 0..0xA0usize {
        mem.write(0xC100 + i, i as u8 ^ 0x5A);
    }
    mem.write(0xFF46, 0xC1);
    for i in 0..0xA0usize {
        assert_eq!(mem.read(0xFE00 + i), mem.read(0xC100 + i));
        assert_eq!(mem.read(0xFE00 + i), i as u8 ^ 0x5A);
    }
}

#[test]
fn tac_write_restarts_counter_on_new_frequency() {
    let mut mem = Memory::from_file(rom(0x8000, 0)).unwrap();
    assert_eq!(mem.timer_counter, 1024);
    mem.write(0xFF07, 0x05);
    assert_eq!(mem.timer_counter, 16);
    mem.timer_counter = 3;
    mem.write(0xFF07, 0x01);
    assert_eq!(mem.timer_counter, 3);
}

#[test]
fn power_up_registers() {
    let mem = Memory::from_file(rom(0x8000, 0)).unwrap();
    assert_eq!(mem.read(0xFF40), 0x91);
    assert_eq!(mem.read(0xFF47), 0xFC);
    assert_eq!(mem.read(0xFF26), 0xF1);
    assert_eq!(mem.mbc.current_rom_bank, 1);
}

#[test]
fn mbc2_ram_keeps_low_nibble_and_repeats() {
    let mut mem = Memory::from_file(rom(0x40000, 6)).unwrap();
    mem.write(0x0000, 0x0A);
    mem.write(0xA000, 0xAB);
    assert_eq!(mem.read(0xA000), 0xFB);
    assert_eq!(mem.read(0xA200), 0xFB);
    assert_eq!(mem.read(0xBE00), 0xFB);
    mem.write(0x0000, 0x00);
    assert_eq!(mem.read(0xA000), 0xFF);
}
