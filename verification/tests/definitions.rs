use ferrisboy_core::error::FerrisBoyError;
use ferrisboy_core::hardware::cartridge_definitions::CartridgeType;
use ferrisboy_core::hardware::cartridge_definitions::ColorGameBoyFlag;
use ferrisboy_core::hardware::cartridge_definitions::Destination;
use ferrisboy_core::hardware::cartridge_definitions::NewLicensee;
use ferrisboy_core::hardware::cartridge_definitions::OldLicensee;
use ferrisboy_core::hardware::cartridge_definitions::RamSize;
use ferrisboy_core::hardware::cartridge_definitions::RomSize;
use ferrisboy_core::hardware::cartridge_definitions::SuperGameBoyFlag;

#[test]
fn test_recognized_codes_decode() {
    assert_eq!(
        ColorGameBoyFlag::from_byte(&0x80),
        ColorGameBoyFlag::SupportsAndBackwardsCompatible
    );
    assert_eq!(ColorGameBoyFlag::from_byte(&0xC0), ColorGameBoyFlag::ColorGameBoyOnly);
    assert_eq!(
        SuperGameBoyFlag::from_byte(&0x03),
        SuperGameBoyFlag::SupportsSuperGameBoyFunctions
    );
    assert_eq!(CartridgeType::from_byte(&0x00), CartridgeType::RomOnly);
    assert_eq!(CartridgeType::from_byte(&0x01), CartridgeType::Mbc1);
    assert_eq!(CartridgeType::from_byte(&0xFF), CartridgeType::HuC1AndRamAndBattery);
    assert_eq!(Destination::from_byte(&0x00), Destination::JapanAndPossiblyOverseas);
    assert_eq!(Destination::from_byte(&0x01), Destination::OverseasOnly);
}

#[test]
fn test_unrecognized_codes_default() {
    // Decoding is total: codes outside each table resolve to the designated
    // default variant, never an error.
    assert_eq!(ColorGameBoyFlag::from_byte(&0x00), ColorGameBoyFlag::Unknown);
    assert_eq!(ColorGameBoyFlag::from_byte(&0x81), ColorGameBoyFlag::Unknown);
    assert_eq!(SuperGameBoyFlag::from_byte(&0x00), SuperGameBoyFlag::Unsupported);
    assert_eq!(SuperGameBoyFlag::from_byte(&0xFF), SuperGameBoyFlag::Unsupported);
    assert_eq!(CartridgeType::from_byte(&0x04), CartridgeType::Unknown);
    assert_eq!(CartridgeType::from_byte(&0x7F), CartridgeType::Unknown);
    assert_eq!(RomSize::from_byte(&0x09), RomSize::Unknown);
    assert_eq!(RomSize::from_byte(&0x51), RomSize::Unknown);
    assert_eq!(RamSize::from_byte(&0x06), RamSize::Unknown);
    assert_eq!(Destination::from_byte(&0x02), Destination::Unknown);
    assert_eq!(NewLicensee::from_word(&0x0000), NewLicensee::Unknown);
    assert_eq!(OldLicensee::from_word(&0xFFFF), OldLicensee::Unknown);
}

#[test]
fn test_rom_size_bank_counts() {
    assert_eq!(RomSize::from_byte(&0x00).number_of_rom_banks(), 2);
    assert_eq!(RomSize::from_byte(&0x01).number_of_rom_banks(), 4);
    assert_eq!(RomSize::from_byte(&0x05).number_of_rom_banks(), 64);
    assert_eq!(RomSize::from_byte(&0x08).number_of_rom_banks(), 512);
    assert_eq!(RomSize::from_byte(&0x52).number_of_rom_banks(), 72);
    assert_eq!(RomSize::from_byte(&0x53).number_of_rom_banks(), 80);
    assert_eq!(RomSize::from_byte(&0x54).number_of_rom_banks(), 96);
    assert_eq!(RomSize::from_byte(&0x99).number_of_rom_banks(), 0);
}

#[test]
fn test_ram_size_bank_counts() {
    assert_eq!(RamSize::from_byte(&0x00).number_of_ram_8_kib_banks(), 0);
    assert_eq!(RamSize::from_byte(&0x01).number_of_ram_8_kib_banks(), 0);
    assert_eq!(RamSize::from_byte(&0x02).number_of_ram_8_kib_banks(), 1);
    assert_eq!(RamSize::from_byte(&0x03).number_of_ram_8_kib_banks(), 4);
    assert_eq!(RamSize::from_byte(&0x04).number_of_ram_8_kib_banks(), 16);
    assert_eq!(RamSize::from_byte(&0x05).number_of_ram_8_kib_banks(), 8);
    assert_eq!(RamSize::from_byte(&0x3C).number_of_ram_8_kib_banks(), 0);
}

#[test]
fn test_licensee_words() {
    // Words are the big-endian pair of ASCII characters.
    let nintendo = (b'3' as u16) << 8 | b'1' as u16;
    assert_eq!(NewLicensee::from_word(&nintendo), NewLicensee::Nintendo);
    let none = (b'0' as u16) << 8 | b'0' as u16;
    assert_eq!(NewLicensee::from_word(&none), NewLicensee::NoLicensee);
    assert_eq!(OldLicensee::from_word(&none), OldLicensee::NoLicensee);
    let sentinel = (b'3' as u16) << 8 | b'3' as u16;
    assert_eq!(
        OldLicensee::from_word(&sentinel),
        OldLicensee::NewLicenseeCodeIndicator
    );
}

#[test]
fn test_licensee_from_bytes() {
    let bytes = [b'0', b'1'];
    assert_eq!(
        NewLicensee::from_bytes(Some(&bytes)),
        Ok(NewLicensee::NintendoResearchAndDevelopment1)
    );
    assert_eq!(
        NewLicensee::from_bytes(None),
        Err(FerrisBoyError::InvalidInput { expected: 2, actual: 0 })
    );
    let short = [b'0'];
    assert_eq!(
        NewLicensee::from_bytes(Some(&short)),
        Err(FerrisBoyError::InvalidInput { expected: 2, actual: 1 })
    );
    let long = [b'0', b'1', b'2'];
    assert_eq!(
        OldLicensee::from_bytes(Some(&long)),
        Err(FerrisBoyError::InvalidInput { expected: 2, actual: 3 })
    );
    let unknown = [0xFFu8, 0xFFu8];
    assert_eq!(OldLicensee::from_bytes(Some(&unknown)), Ok(OldLicensee::Unknown));
}

#[test]
fn test_defaults() {
    assert_eq!(ColorGameBoyFlag::default(), ColorGameBoyFlag::Unknown);
    assert_eq!(NewLicensee::default(), NewLicensee::Unknown);
    assert_eq!(SuperGameBoyFlag::default(), SuperGameBoyFlag::Unsupported);
    assert_eq!(CartridgeType::default(), CartridgeType::Unknown);
    assert_eq!(RomSize::default(), RomSize::Unknown);
    assert_eq!(RamSize::default(), RamSize::Unknown);
    assert_eq!(Destination::default(), Destination::Unknown);
    assert_eq!(OldLicensee::default(), OldLicensee::Unknown);
}
