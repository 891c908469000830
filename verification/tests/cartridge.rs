use ferrisboy_core::error::FerrisBoyError;
use ferrisboy_core::hardware::cartridge::Cartridge;
use ferrisboy_core::hardware::cartridge::CartridgeContext;
use ferrisboy_core::hardware::cartridge_definitions::CartridgeType;
use ferrisboy_core::hardware::cartridge_definitions::ColorGameBoyFlag;
use ferrisboy_core::hardware::cartridge_definitions::Destination;
use ferrisboy_core::hardware::cartridge_definitions::NewLicensee;
use ferrisboy_core::hardware::cartridge_definitions::RamSize;
use ferrisboy_core::hardware::cartridge_definitions::RomSize;
use ferrisboy_core::hardware::cartridge_definitions::SuperGameBoyFlag;

fn context() -> CartridgeContext {
    CartridgeContext::new("roms/test_rom.gb".to_string())
}

/// A structurally valid image: `len` bytes, title, cartridge type, ROM and
/// RAM size codes in place, and a correct header checksum.
fn make_image(len: usize, cartridge_type: u8, rom_size: u8, ram_size: u8) -> Vec<u8> {
    let mut rom = vec![0u8; len];
    let title = b"TESTROM";
    rom[0x0134..0x0134 + title.len()].copy_from_slice(title);
    rom[0x0147] = cartridge_type;
    rom[0x0148] = rom_size;
    rom[0x0149] = ram_size;
    let mut checksum: u8 = 0;
    for i in 0x0134..=0x014C {
        checksum = checksum.wrapping_sub(rom[i]).wrapping_sub(1);
    }
    rom[0x014D] = checksum;
    rom
}

#[test]
fn test_load_rejects_short_image() {
    let rom = vec![0u8; 0x014F];
    let result = Cartridge::load(context(), rom);
    assert_eq!(
        result.unwrap_err(),
        FerrisBoyError::InvalidInput { expected: 0x0150, actual: 0x014F }
    );
}

#[test]
fn test_load_accepts_minimum_image() {
    let rom = vec![0u8; 0x0150];
    let cart = Cartridge::load(context(), rom).unwrap();
    assert_eq!(cart.rom_size(), 0x0150);
}

#[test]
fn test_end_to_end_no_banking_image() {
    // A 32 KiB image with no banking: loads, titles decode, geometry is two
    // banks, and the banking type is supported.
    let rom = make_image(0x8000, 0x00, 0x00, 0x00);
    let cart = Cartridge::load(context(), rom).unwrap();
    let title16 = cart.header_title_16().unwrap();
    assert_eq!(title16, "TESTROM\0\0\0\0\0\0\0\0\0");
    let title15 = cart.header_title_15().unwrap();
    assert_eq!(title15, "TESTROM\0\0\0\0\0\0\0\0");
    let title11 = cart.header_title_11().unwrap();
    assert_eq!(title11, "TESTROM\0\0\0\0");
    assert_eq!(cart.bank_geometry().rom_bank_count, 2);
    assert_eq!(cart.bank_geometry().ram_bank_count, 0);
    assert!(cart.check_compatibility());
    assert!(cart.check_integrity());
    assert!(cart.check_all());
    assert_eq!(cart.header_cartridge_type(), Some(CartridgeType::RomOnly));
    assert_eq!(cart.header_cartridge_rom_size(), Some(RomSize::_32KiB));
    assert_eq!(cart.header_cartridge_ram_size(), Some(RamSize::_0));
    assert_eq!(
        cart.header_destination(),
        Some(Destination::JapanAndPossiblyOverseas)
    );
    assert_eq!(
        cart.header_super_game_boy_flag(),
        Some(SuperGameBoyFlag::Unsupported)
    );
    assert_eq!(cart.header_color_game_boy_flag(), Some(ColorGameBoyFlag::Unknown));
    // Zero bytes are not the ASCII pair "00": the code is unrecognized.
    assert_eq!(cart.header_new_licensee(), NewLicensee::Unknown);
    let header = cart.header().unwrap();
    assert_eq!(header.len(), 0x50);
    let logo = cart.header_logo().unwrap();
    assert_eq!(logo.len(), 0x30);
    let manufacturer = cart.header_manufacturer_code().unwrap();
    assert_eq!(manufacturer.len(), 4);
}

#[test]
fn test_unsupported_banking_code_still_loads() {
    // An unsupported (but structurally valid) banking code loads fine; only
    // the compatibility check reports it.
    let rom = make_image(0x8000, 0x19, 0x00, 0x00);
    let cart = Cartridge::load(context(), rom).unwrap();
    assert!(!cart.check_compatibility());
    assert!(cart.check_integrity());
    assert!(!cart.check_all());
}

#[test]
fn test_integrity_detects_corruption() {
    let mut rom = make_image(0x0150, 0x00, 0x00, 0x00);
    rom[0x0134] = rom[0x0134].wrapping_add(1);
    let cart = Cartridge::load(context(), rom).unwrap();
    assert!(!cart.check_integrity());
}

#[test]
fn test_header_accessors_on_short_image() {
    // A buffer below the header span never panics: the accessors report the
    // missing data instead.
    let cart = Cartridge::new(context(), vec![0u8; 0x0120]);
    assert!(cart.header().is_none());
    assert!(cart.header_title_16().is_none());
    assert!(cart.header_title_15().is_none());
    assert!(cart.header_title_11().is_none());
    assert!(cart.header_manufacturer_code().is_none());
    assert!(cart.header_color_game_boy_flag().is_none());
    assert!(cart.header_super_game_boy_flag().is_none());
    assert!(cart.header_cartridge_type().is_none());
    assert!(cart.header_cartridge_rom_size().is_none());
    assert!(cart.header_cartridge_ram_size().is_none());
    assert!(cart.header_destination().is_none());
    assert_eq!(cart.header_new_licensee(), NewLicensee::Unknown);
    assert!(!cart.check_integrity());
    assert!(!cart.check_compatibility());
    assert_eq!(cart.bank_geometry().rom_bank_count, 0);
    assert_eq!(cart.bank_geometry().ram_bank_count, 0);
}

#[test]
fn test_new_licensee_from_header_bytes() {
    let mut rom = make_image(0x0150, 0x00, 0x00, 0x00);
    rom[0x0144] = b'0';
    rom[0x0145] = b'1';
    let cart = Cartridge::load(context(), rom).unwrap();
    assert_eq!(
        cart.header_new_licensee(),
        NewLicensee::NintendoResearchAndDevelopment1
    );
}

#[test]
fn test_read_rom_byte_bounds() {
    let mut rom = make_image(0x0150, 0x00, 0x00, 0x00);
    rom[0x0000] = 0x42;
    let cart = Cartridge::load(context(), rom).unwrap();
    assert_eq!(cart.read_rom_byte(0x0000), 0x42);
    assert_eq!(cart.read_rom_byte(0x0150), 0xFF);
    assert_eq!(cart.read_rom_byte(usize::MAX), 0xFF);
}

#[test]
fn test_context_filename() {
    let cart = Cartridge::new(context(), vec![0u8; 0x0150]);
    assert_eq!(cart.context().filename(), "test_rom.gb");
    assert_eq!(CartridgeContext::new("plain.gb".to_string()).filename(), "plain.gb");
    assert_eq!(CartridgeContext::new("a/b/c.gb".to_string()).filename(), "c.gb");
    assert_eq!(CartridgeContext::new("trailing/".to_string()).filename(), "");
    assert_eq!(CartridgeContext::new(String::new()).filename(), "");
}
