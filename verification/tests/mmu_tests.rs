use rustboy::mmu::MMU;

#[test]
fn get_and_set_legal_memory_test() {
    let mut mmu = MMU::new();
    mmu.set_to_memory(0x1234, 0xFF, false);
    assert_eq!(mmu.mem_map[0x1234], 0xFF);
    assert_eq!(mmu.get_from_memory(0x1234, false), 0xFF);
}

#[test]
fn oam_dma_transfer_test() {
    let mut mmu = MMU::new();
    for i in 0..0xA0 {
        mmu.mem_map[i] = i as u8;
        mmu.mem_map[0x8000 + i] = i as u8;
    }

    mmu.set_to_memory(0xFF46, 0x00, true);
    for i in 0..0xA0 {
        assert_eq!(mmu.mem_map[0xFE00 + i], i as u8);
    }

    mmu.set_to_memory(0xFF46, 0x01, true);
    for i in 0..0xA0 {
        assert_eq!(mmu.mem_map[0xFE00 + i], 0);
    }

    mmu.set_to_memory(0xFF46, 0x80, true);
    for i in 0..0xA0 {
        assert_eq!(mmu.mem_map[0xFE00 + i], i as u8);
    }
}

#[test]
fn echo_ram_round_trip_test() {
    let mut mmu = MMU::new();
    mmu.set_to_memory(0xE123, 0xAB, true);
    assert_eq!(mmu.get_from_memory(0xC123, true), 0xAB);
    assert_eq!(mmu.get_from_memory(0xE123, true), 0xAB);
    mmu.set_to_memory(0xC456, 0x42, false);
    assert_eq!(mmu.get_from_memory(0xE456, false), 0x42);
    assert_eq!(mmu.get_from_memory(0xC456, false), 0x42);
}

#[test]
fn timer_control_reads_with_high_bits_set() {
    let mut mmu = MMU::new();
    mmu.set_to_memory(0xFF07, 0x01, false);
    assert_eq!(mmu.get_from_memory(0xFF07, false), 0xF9);
}

#[test]
fn divider_write_resets_and_requests() {
    let mut mmu = MMU::new();
    mmu.set_to_memory(0xFF04, 0x99, true);
    assert_eq!(mmu.mem_map[0xFF04], 0);
    assert!(mmu.div_reset);
}

#[test]
fn joypad_write_merges_select_bits_only() {
    let mut mmu = MMU::new();
    mmu.mem_map[0xFF00] = 0b11001111;
    mmu.set_to_memory(0xFF00, 0b00110000, true);
    assert_eq!(mmu.mem_map[0xFF00], 0b11111111);
}

#[test]
fn mbc1_zero_bank_select_always_gives_bank_one() {
    let mut mmu = MMU::new();
    mmu.cartridge_type = 0x01;
    mmu.set_to_memory(0x2000, 0x00, true);
    assert_eq!(mmu.rom_bank, 1);
    mmu.set_to_memory(0x2000, 0x1F, true);
    assert_eq!(mmu.rom_bank, 0x1F);
    // value 0x20 has zero low bank bits, so it aliases to bank 1 as well
    mmu.set_to_memory(0x2000, 0x20, true);
    assert_eq!(mmu.rom_bank, 1);
    assert_ne!(mmu.rom_bank, 0);
}

#[test]
fn mbc1_ram_enable_and_banking_mode() {
    let mut mmu = MMU::new();
    mmu.cartridge_type = 0x01;
    mmu.ram_size = 8;
    assert!(!mmu.ram_enable);
    mmu.set_to_memory(0x0000, 0x0A, true);
    assert!(mmu.ram_enable);
    // switch to RAM-banking mode, pick RAM bank 2, write a byte through
    mmu.set_to_memory(0x6000, 0x01, true);
    mmu.set_to_memory(0x4000, 0x02, true);
    assert_eq!(mmu.ram_bank, 2);
    mmu.set_to_memory(0xA010, 0x5A, true);
    assert_eq!(mmu.ram_banks[2][0x10], 0x5A);
    assert_eq!(mmu.get_from_memory(0xA010, true), 0x5A);
    // a plain store into the window must not reach the unified map
    assert_eq!(mmu.mem_map[0xA010], 0);
    mmu.set_to_memory(0x0000, 0x00, true);
    assert!(!mmu.ram_enable);
    assert_eq!(mmu.get_from_memory(0xA010, true), 0xFF);
}

#[test]
fn mbc3_bank_select_and_rtc_window() {
    let mut mmu = MMU::new();
    mmu.cartridge_type = 0x13;
    mmu.set_to_memory(0x0000, 0x0A, true);
    assert!(mmu.ram_enable);
    assert!(mmu.rtc_enable);
    mmu.set_to_memory(0x2000, 0x00, true);
    assert_eq!(mmu.rom_bank, 1);
    mmu.set_to_memory(0x2000, 0x15, true);
    assert_eq!(mmu.rom_bank, 0x15);
    mmu.set_to_memory(0x4000, 0x08, true);
    assert_eq!(mmu.ram_rtc_bank, 0x08);
    // an RTC register is selected on a controller without RTC: 0xFF
    assert_eq!(mmu.get_from_memory(0xA000, true), 0xFF);
}

#[test]
fn mbc3_ram_write_read_round_trip_through_selector() {
    let mut mmu = MMU::new();
    mmu.cartridge_type = 0x13;
    mmu.ram_size = 8;
    mmu.set_to_memory(0x0000, 0x0A, true);
    mmu.set_to_memory(0x4000, 0x02, true);
    assert_eq!(mmu.ram_rtc_bank, 2);
    mmu.set_to_memory(0xA123, 0x7E, true);
    // the write lands in the bank the combined selector picked, where the
    // read finds it again
    assert_eq!(mmu.ram_banks[2][0x123], 0x7E);
    assert_eq!(mmu.get_from_memory(0xA123, true), 0x7E);
    // another selected bank observes nothing of it
    mmu.set_to_memory(0x4000, 0x01, true);
    assert_eq!(mmu.get_from_memory(0xA123, true), 0x00);
}

fn synthetic_image() -> Vec<u8> {
    let mut image = vec![0u8; 0x10000];
    image[0x0147] = 0x01;
    image[0x0148] = 0x01;
    image[0x0149] = 0x00;
    image[0x0000] = 0x3C;
    image[0x4000] = 0xC3;
    image[0x4300] = 0x3E;
    image[0x8000] = 0xC3;
    image[0x8300] = 0xE0;
    image[0xC000] = 0xC3;
    image[0xC900] = 0x72;
    image
}

#[test]
fn initialize_catridge_test() {
    let mut mmu = MMU::new();
    let image = synthetic_image();
    mmu.initialize_cartridge(&image);
    assert_eq!(mmu.rom_size, 4);
    assert_eq!(mmu.ram_size, 0);
    assert_eq!(mmu.cartridge_type, 1);
    assert_eq!(mmu.memory_banks[0][0x0000], 0x3C);
    assert_eq!(mmu.memory_banks[1][0x0000], 0xC3);
    assert_eq!(mmu.memory_banks[2][0x0000], 0xC3);
    assert_eq!(mmu.memory_banks[3][0x0000], 0xC3);
    // bank 0's first byte matches the image's first byte, mirrored too
    assert_eq!(mmu.mem_map[0x0000], 0x3C);
}

#[test]
fn rom_bank_switch_test() {
    let mut mmu = MMU::new();
    let image = synthetic_image();
    mmu.initialize_cartridge(&image);
    assert_eq!(mmu.get_from_memory(0x0000, false), 0x3C);
    assert_eq!(mmu.get_from_memory(0x4300, false), 0x3E);
    mmu.mbc1_parse(0x2000, 0x00);
    assert_eq!(mmu.get_from_memory(0x4300, false), 0x3E);
    mmu.mbc1_parse(0x2000, 0x02);
    assert_eq!(mmu.get_from_memory(0x4300, false), 0xE0);
    mmu.mbc1_parse(0x2000, 0x03);
    assert_eq!(mmu.get_from_memory(0x4900, false), 0x72);
    mmu.mbc1_parse(0x2000, 0x00);
    assert_eq!(mmu.get_from_memory(0x4300, false), 0x3E);
}

#[test]
fn short_image_leaves_state_untouched() {
    let mut mmu = MMU::new();
    let image = vec![0x77u8; 0x100];
    mmu.initialize_cartridge(&image);
    assert_eq!(mmu.cartridge_type, 0);
    assert_eq!(mmu.rom_size, 0);
    assert_eq!(mmu.memory_banks[0][0], 0);
    assert_eq!(mmu.mem_map[0], 0);
}
