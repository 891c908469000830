use ferrisboy_core::hardware::cartridge::Cartridge;
use ferrisboy_core::hardware::cartridge::CartridgeContext;
use ferrisboy_core::hardware::AddressBus;

fn make_image(len: usize, cartridge_type: u8, rom_size: u8, ram_size: u8) -> Vec<u8> {
    let mut rom = vec![0u8; len];
    let title = b"TESTROM";
    rom[0x0134..0x0134 + title.len()].copy_from_slice(title);
    rom[0x0147] = cartridge_type;
    rom[0x0148] = rom_size;
    rom[0x0149] = ram_size;
    let mut checksum: u8 = 0;
    for i in 0x0134..=0x014C {
        checksum = checksum.wrapping_sub(rom[i]).wrapping_sub(1);
    }
    rom[0x014D] = checksum;
    rom
}

fn load(rom: Vec<u8>) -> Cartridge {
    Cartridge::load(CartridgeContext::new("bus_test.gb".to_string()), rom).unwrap()
}

#[test]
fn test_read_write_total_over_u16() {
    // Every address of the 16-bit space yields a defined result for both
    // read and write; no address panics or is unhandled.
    let rom = make_image(0x8000, 0x00, 0x00, 0x00);
    let mut bus = AddressBus::new(load(rom));
    let mut checksum: u64 = 0;
    for addr in 0u16..=0xFFFF {
        checksum = checksum.wrapping_add(bus.read(addr) as u64);
    }
    for addr in 0u16..=0xFFFF {
        bus.write(addr, (addr & 0xFF) as u8);
    }
    for addr in 0u16..=0xFFFF {
        checksum = checksum.wrapping_add(bus.read(addr) as u64);
    }
    assert!(checksum > 0);
}

#[test]
fn test_rom_windows_no_banking() {
    let mut rom = make_image(0x8000, 0x00, 0x00, 0x00);
    rom[0x0123] = 0x42;
    rom[0x4567] = 0x99;
    let bus = AddressBus::new(load(rom));
    // Fixed window reads bank 0; with no banking the switchable window maps
    // linearly onto the second bank.
    assert_eq!(bus.read(0x0123), 0x42);
    assert_eq!(bus.read(0x4567), 0x99);
}

#[test]
fn test_rom_window_writes_discarded() {
    // Writes into the ROM windows of a no-banking cartridge are accepted and
    // discarded, as the hardware does.
    let mut rom = make_image(0x8000, 0x00, 0x00, 0x00);
    rom[0x0123] = 0x42;
    let mut bus = AddressBus::new(load(rom));
    bus.write(0x0123, 0x55);
    assert_eq!(bus.read(0x0123), 0x42);
}

#[test]
fn test_internal_memory_round_trips() {
    let rom = make_image(0x8000, 0x00, 0x00, 0x00);
    let mut bus = AddressBus::new(load(rom));
    bus.write(0x8010, 0x11); // video RAM
    bus.write(0xC020, 0x22); // working RAM
    bus.write(0xFE30, 0x33); // OAM
    bus.write(0xFF40, 0x44); // I/O register block
    bus.write(0xFF85, 0x55); // high RAM
    bus.write(0xFFFF, 0x66); // interrupt enable
    assert_eq!(bus.read(0x8010), 0x11);
    assert_eq!(bus.read(0xC020), 0x22);
    assert_eq!(bus.read(0xFE30), 0x33);
    assert_eq!(bus.read(0xFF40), 0x44);
    assert_eq!(bus.read(0xFF85), 0x55);
    assert_eq!(bus.read(0xFFFF), 0x66);
    // Echo RAM mirrors working RAM both ways.
    assert_eq!(bus.read(0xE020), 0x22);
    bus.write(0xE021, 0x77);
    assert_eq!(bus.read(0xC021), 0x77);
    // The unusable range reads as open bus and swallows writes.
    bus.write(0xFEA5, 0x12);
    assert_eq!(bus.read(0xFEA5), 0xFF);
}

#[test]
fn test_external_ram_gate_round_trip() {
    // MBC1 with RAM: a write to a RAM-backed address with RAM enabled reads
    // back; with RAM disabled, the write leaves no trace even after RAM
    // access is turned back on.
    let rom = make_image(0x8000, 0x02, 0x00, 0x03);
    let mut bus = AddressBus::new(load(rom));
    // RAM is disabled at power-on: reads are open bus, writes are discarded.
    assert_eq!(bus.read(0xA010), 0xFF);
    bus.write(0xA010, 0x5A);
    bus.write(0x0000, 0x0A); // enable RAM
    assert_eq!(bus.read(0xA010), 0x00); // the voided write never landed
    bus.write(0xA010, 0x5A);
    assert_eq!(bus.read(0xA010), 0x5A);
    bus.write(0x0000, 0x00); // disable RAM
    assert_eq!(bus.read(0xA010), 0xFF);
    bus.write(0x0000, 0x1A); // any value with low bits 0xA enables RAM
    assert_eq!(bus.read(0xA010), 0x5A);
}

#[test]
fn test_mbc1_ram_banking_mode() {
    let rom = make_image(0x8000, 0x02, 0x00, 0x03);
    let mut bus = AddressBus::new(load(rom));
    bus.write(0x0000, 0x0A); // enable RAM
    bus.write(0xA000, 0x11); // bank 0
    bus.write(0x6000, 0x01); // advanced banking mode
    bus.write(0x4000, 0x02); // select RAM bank 2
    bus.write(0xA000, 0x22);
    assert_eq!(bus.read(0xA000), 0x22);
    bus.write(0x4000, 0x00); // back to RAM bank 0
    assert_eq!(bus.read(0xA000), 0x11);
    bus.write(0x6000, 0x00); // simple mode always addresses bank 0
    bus.write(0x4000, 0x02);
    assert_eq!(bus.read(0xA000), 0x11);
}

#[test]
fn test_mbc1_rom_bank_switching_and_wrap() {
    // Four-bank MBC1 image with a marker in every bank.
    let mut rom = make_image(4 * 0x4000, 0x01, 0x01, 0x00);
    rom[0x0000] = 0xB0;
    rom[0x4000] = 0xB1;
    rom[0x8000] = 0xB2;
    rom[0xC000] = 0xB3;
    let mut bus = AddressBus::new(load(rom));
    // Power-on state maps bank 1.
    assert_eq!(bus.read(0x4000), 0xB1);
    bus.write(0x2000, 0x02);
    assert_eq!(bus.read(0x4000), 0xB2);
    bus.write(0x2000, 0x03);
    assert_eq!(bus.read(0x4000), 0xB3);
    // A write of zero selects bank 1, never bank 0.
    bus.write(0x2000, 0x00);
    assert_eq!(bus.read(0x4000), 0xB1);
    // Selecting a bank at or past the bank count wraps: 5 mod 4 = 1,
    // 6 mod 4 = 2.
    bus.write(0x2000, 0x05);
    assert_eq!(bus.read(0x4000), 0xB1);
    bus.write(0x2000, 0x06);
    assert_eq!(bus.read(0x4000), 0xB2);
    // Only the low five bits of the value are significant.
    bus.write(0x2000, 0xE2);
    assert_eq!(bus.read(0x4000), 0xB2);
}

#[test]
fn test_unsupported_banking_type_boots_read_only() {
    // An unsupported banking code still boots: the fallback controller stays
    // fixed on bank 0, so the switchable window returns valid bank-0 data
    // rather than failing, and register writes change nothing.
    let mut rom = make_image(0x8000, 0x19, 0x00, 0x03);
    rom[0x0123] = 0x42;
    let mut bus = AddressBus::new(load(rom));
    assert_eq!(bus.read(0x4123), 0x42);
    bus.write(0x2000, 0x02); // a banking register write is a no-op
    assert_eq!(bus.read(0x4123), 0x42);
    bus.write(0x0000, 0x0A); // the RAM gate cannot be opened either
    assert_eq!(bus.read(0xA000), 0xFF);
}

#[test]
fn test_reads_past_image_are_open_bus() {
    // A 2-bank geometry over a minimum-size image: translated offsets past
    // the physical image read as open bus.
    let rom = make_image(0x0150, 0x00, 0x00, 0x00);
    let bus = AddressBus::new(load(rom));
    assert_eq!(bus.read(0x0100), 0x00);
    assert_eq!(bus.read(0x1000), 0xFF);
    assert_eq!(bus.read(0x7FFF), 0xFF);
}
