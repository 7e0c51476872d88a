use rust_gbc_emu::cartridge::{
    calculate_global_checksum, calculate_header_checksum, Cartridge, CartridgeError, Type,
};

fn build_rom() -> Vec<u8> {
    let mut rom = vec![0u8; 0x10000];
    // Title "TEST", zero padded.
    rom[0x134] = b'T';
    rom[0x135] = b'E';
    rom[0x136] = b'S';
    rom[0x137] = b'T';
    rom[0x147] = 0x01; // MBC1
    rom[0x148] = 0x01; // 64 KiB -> four banks
    rom[0x149] = 0x02; // 8 KiB external RAM
    rom[0x14c] = 0x07;
    // Give each bank a recognizable byte at its start.
    for bank in 0..4usize {
        rom[bank * 0x4000] = 0x10 + bank as u8;
    }
    rom
}

#[test]
fn test_header_parsing() {
    let rom = build_rom();
    let cart = Cartridge::new(rom).unwrap();
    assert!(matches!(cart.cartridge_type, Type::Mbc1));
    assert_eq!(cart.rom_size, 0x10000);
    assert_eq!(cart.external_ram_size, 0x2000);
    assert_eq!(cart.external_ram.len(), 0x2000);
    assert_eq!(cart.rom_version, 0x07);
    assert_eq!(&cart.title[..4], b"TEST");
    assert!(!cart.enable_external_ram);
    assert_eq!(cart.rom_bank_selected, 1);
}

#[test]
fn test_rom_too_short() {
    let rom = vec![0u8; 0x100];
    assert!(matches!(
        Cartridge::new(rom),
        Err(CartridgeError::TooShort)
    ));
}

#[test]
fn test_unknown_cartridge_type() {
    let mut rom = build_rom();
    rom[0x147] = 0x42;
    assert!(matches!(
        Cartridge::new(rom),
        Err(CartridgeError::UnknownCartridgeType(0x42))
    ));
}

#[test]
fn test_unknown_ram_size_code() {
    let mut rom = build_rom();
    rom[0x149] = 0x09;
    assert!(matches!(
        Cartridge::new(rom),
        Err(CartridgeError::UnknownRamSizeCode(0x09))
    ));
}

#[test]
fn test_header_checksum_formula() {
    let mut rom = vec![0u8; 0x150];
    for i in 0x134..=0x14c {
        rom[i] = i as u8;
    }
    let mut x = 0u8;
    for i in 0x134..=0x14c {
        x = x.wrapping_sub(rom[i]).wrapping_sub(1);
    }
    assert_eq!(calculate_header_checksum(&rom), x);
    // An empty span of header bytes sums to zero going in.
    let zero_rom = vec![0u8; 0x150];
    assert_eq!(calculate_header_checksum(&zero_rom), 0xe7);
}

#[test]
fn test_global_checksum_skips_its_own_bytes() {
    let mut rom = vec![0u8; 0x150];
    rom[0] = 0x12;
    rom[1] = 0x34;
    rom[0x14e] = 0xff;
    rom[0x14f] = 0xff;
    assert_eq!(calculate_global_checksum(&rom), 0x12 + 0x34);
}

#[test]
fn test_bank_switching() {
    let rom = build_rom();
    let mut cart = Cartridge::new(rom).unwrap();
    // Bank one is selected after load.
    assert_eq!(cart.read_rom_bank_0(0), 0x10);
    assert_eq!(cart.read_rom_selected_bank(0), 0x11);
    // Select bank three.
    cart.write_rom_bank_0(0x2000, 0x03);
    assert_eq!(cart.read_rom_selected_bank(0), 0x13);
    // Writing zero selects bank one.
    cart.write_rom_bank_0(0x2000, 0x00);
    assert_eq!(cart.read_rom_selected_bank(0), 0x11);
    // A bank number past the ROM's four banks is reduced modulo the
    // bank count: bank six folds to bank two.
    cart.write_rom_bank_0(0x2000, 0x06);
    assert_eq!(cart.read_rom_selected_bank(0), 0x12);
}

#[test]
fn test_external_ram_enable_gate() {
    let rom = build_rom();
    let mut cart = Cartridge::new(rom).unwrap();
    // Disabled RAM reads 0xff and drops writes.
    assert_eq!(cart.read_from_external_ram(0), 0xff);
    cart.write_to_external_ram(0, 0x55);
    // Enable with a low nibble of 0xa.
    cart.write_rom_bank_0(0x0000, 0x0a);
    assert!(cart.enable_external_ram);
    assert_eq!(cart.read_from_external_ram(0), 0x00);
    cart.write_to_external_ram(0, 0x55);
    assert_eq!(cart.read_from_external_ram(0), 0x55);
    // Any other nibble disables again.
    cart.write_rom_bank_0(0x0000, 0x00);
    assert_eq!(cart.read_from_external_ram(0), 0xff);
}

#[test]
fn test_upper_bank_bits() {
    // A 2 MiB image has 128 banks; the two upper bits extend the
    // five-bit register.
    let mut rom = vec![0u8; 0x150];
    rom[0x147] = 0x01;
    rom[0x148] = 0x06; // 2 MiB
    let mut cart = Cartridge::new(rom).unwrap();
    cart.write_rom_bank_0(0x2000, 0x02);
    cart.write_rom_selected_bank(0x0000, 0x01);
    // Effective bank = (1 << 5) | 2 = 34; its base byte is off the
    // end of this short image, so the read is open bus.
    assert_eq!(cart.read_rom_selected_bank(0), 0xff);
    assert_eq!(cart.upper_bank_bits, 1);
    assert_eq!(cart.rom_bank_selected, 2);
}

#[test]
fn test_logo_check() {
    let mut rom = build_rom();
    assert!(!Cartridge::new(rom.clone()).unwrap().logo_matches());
    let logo: [u8; 48] = [
        0xce, 0xed, 0x66, 0x66, 0xcc, 0x0d, 0x00, 0x0b, 0x03, 0x73, 0x00, 0x83, 0x00, 0x0c,
        0x00, 0x0d, 0x00, 0x08, 0x11, 0x1f, 0x88, 0x89, 0x00, 0x0e, 0xdc, 0xcc, 0x6e, 0xe6,
        0xdd, 0xdd, 0xd9, 0x99, 0xbb, 0xbb, 0x67, 0x63, 0x6e, 0x0e, 0xec, 0xcc, 0xdd, 0xdc,
        0x99, 0x9f, 0xbb, 0xb9, 0x33, 0x3e,
    ];
    rom[0x104..0x134].copy_from_slice(&logo);
    assert!(Cartridge::new(rom).unwrap().logo_matches());
}
