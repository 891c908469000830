use vstd::prelude::*;
use vstd::slice::slice_subrange;
use crate::error::FerrisBoyError;
use super::cartridge_definitions::CartridgeType;
use super::cartridge_definitions::ColorGameBoyFlag;
use super::cartridge_definitions::Destination;
use super::cartridge_definitions::NewLicensee;
use super::cartridge_definitions::RamSize;
use super::cartridge_definitions::RomSize;
use super::cartridge_definitions::SuperGameBoyFlag;
use super::cartridge_definitions::HEADER_CARTRIDGE_TYPE;
use super::cartridge_definitions::HEADER_CHECKSUM;
use super::cartridge_definitions::HEADER_COLOR_GAME_BOY_FLAG;
use super::cartridge_definitions::HEADER_DESTINATION_CODE;
use super::cartridge_definitions::HEADER_END;
use super::cartridge_definitions::HEADER_LOGO_END;
use super::cartridge_definitions::HEADER_LOGO_START;
use super::cartridge_definitions::HEADER_MANUFACTURER_CODE_END;
use super::cartridge_definitions::HEADER_MANUFACTURER_CODE_START;
use super::cartridge_definitions::HEADER_NEW_LICENSEE_CODE_END;
use super::cartridge_definitions::HEADER_NEW_LICENSEE_CODE_START;
use super::cartridge_definitions::HEADER_RAM_SIZE;
use super::cartridge_definitions::HEADER_ROM_SIZE;
use super::cartridge_definitions::HEADER_START;
use super::cartridge_definitions::HEADER_SUPER_GAME_BOY_FLAG;
use super::cartridge_definitions::HEADER_TITLE_LEN_11_END;
use super::cartridge_definitions::HEADER_TITLE_LEN_15_END;
use super::cartridge_definitions::HEADER_TITLE_LEN_16_END;
use super::cartridge_definitions::HEADER_TITLE_START;
use super::cartridge_definitions::MIN_ROM_LEN;
use super::mbc::Mbc;

verus! {

/// Relies on String::push: appends the given character to the end of the string.
#[verifier::external_body]
fn push_char(s: &mut String, c: char)
    ensures
        final(s)@ == old(s)@.push(c),
{
    s.push(c);
}

/// The suffix of `s` after its last `/`; the whole of `s` when it holds none.
pub open spec fn spec_filename_of(s: Seq<char>) -> Seq<char>
    decreases s.len(),
{
    if s.len() == 0 {
        s
    } else if s.last() == '/' {
        Seq::empty()
    } else {
        spec_filename_of(s.drop_last()).push(s.last())
    }
}

/// Where a cartridge image came from.
#[derive(Debug)]
pub struct CartridgeContext {
    pub path: String,
}

impl CartridgeContext {
    pub fn new(path: String) -> (r: Self)
        ensures
            r.path == path,
    {
        Self { path }
    }

    /// The file name: everything after the last path separator.
    pub fn filename(&self) -> (r: String)
        ensures
            r@ == spec_filename_of(self.path@),
    {
        let path = self.path.as_str();
        let n = path.unicode_len();
        let mut acc = String::new();
        let mut i: usize = 0;
        while i < n
            invariant
                n == self.path@.len(),
                i <= n,
                path@ == self.path@,
                acc@ == spec_filename_of(self.path@.subrange(0, i as int)),
            decreases n - i,
        {
            let c = path.get_char(i);
            proof {
                assert(self.path@.subrange(0, i + 1).drop_last() =~= self.path@.subrange(
                    0,
                    i as int,
                ));
                assert(self.path@.subrange(0, i + 1).last() == self.path@[i as int]);
            }
            if c == '/' {
                acc = String::new();
            } else {
                push_char(&mut acc, c);
            }
            i += 1;
        }
        proof {
            assert(self.path@.subrange(0, n as int) =~= self.path@);
        }
        acc
    }
}

/// One step of the header-checksum fold: the running value minus the byte,
/// minus one, in eight-bit wrapping arithmetic.
pub open spec fn spec_checksum_step(acc: u8, b: u8) -> u8 {
    vstd::wrapping::u8_specs::wrapping_sub(vstd::wrapping::u8_specs::wrapping_sub(acc, b), 1)
}

/// The checksum fold over the first `n` bytes of the declared range, which
/// starts at the title field.
pub open spec fn spec_checksum_first_n(rom: Seq<u8>, n: nat) -> u8
    decreases n,
{
    if n == 0 {
        0
    } else {
        spec_checksum_step(
            spec_checksum_first_n(rom, (n - 1) as nat),
            rom[HEADER_TITLE_START + n - 1],
        )
    }
}

/// The header checksum recomputed over its declared range, the bytes from the
/// title field up to (excluding) the stored checksum byte.
pub open spec fn spec_header_checksum(rom: Seq<u8>) -> u8 {
    spec_checksum_first_n(rom, (HEADER_CHECKSUM - HEADER_TITLE_START) as nat)
}

/// Integrity holds when the image covers the header span and the recomputed
/// checksum matches the embedded checksum byte.
pub open spec fn spec_integrity_ok(rom: Seq<u8>) -> bool {
    &&& rom.len() >= MIN_ROM_LEN
    &&& spec_header_checksum(rom) == rom[HEADER_CHECKSUM as int]
}

/// The byte at a physical ROM offset; reads past the image yield the open-bus
/// value 0xFF rather than failing.
pub open spec fn spec_rom_byte(rom: Seq<u8>, off: int) -> u8 {
    if 0 <= off < rom.len() {
        rom[off]
    } else {
        0xFF
    }
}

/// The decoded banking type of the image, the unrecognized default when the
/// image does not reach the type byte.
pub open spec fn spec_cartridge_type(rom: Seq<u8>) -> CartridgeType {
    if rom.len() > HEADER_CARTRIDGE_TYPE {
        CartridgeType::spec_from_byte(rom[HEADER_CARTRIDGE_TYPE as int])
    } else {
        CartridgeType::Unknown
    }
}

/// The decoded ROM-size code of the image.
pub open spec fn spec_rom_size_code(rom: Seq<u8>) -> RomSize {
    if rom.len() > HEADER_ROM_SIZE {
        RomSize::spec_from_byte(rom[HEADER_ROM_SIZE as int])
    } else {
        RomSize::Unknown
    }
}

/// The decoded RAM-size code of the image.
pub open spec fn spec_ram_size_code(rom: Seq<u8>) -> RamSize {
    if rom.len() > HEADER_RAM_SIZE {
        RamSize::spec_from_byte(rom[HEADER_RAM_SIZE as int])
    } else {
        RamSize::Unknown
    }
}

/// Bank counts resolved from the size codes through the documented tables,
/// zero where a code denotes no such memory.
#[derive(Debug, Clone, Copy, PartialEq, Eq, Structural)]
pub struct BankGeometry {
    pub rom_bank_count: usize,
    pub ram_bank_count: usize,
}

pub open spec fn spec_bank_geometry(rom: Seq<u8>) -> BankGeometry {
    BankGeometry {
        rom_bank_count: spec_rom_size_code(rom).spec_number_of_rom_banks() as usize,
        ram_bank_count: spec_ram_size_code(rom).spec_number_of_ram_8_kib_banks() as usize,
    }
}

/// The title bytes from the title field up to `end` inclusive, each mapped to
/// its character representation (no length coercion, no terminator handling).
pub open spec fn spec_title_chars(rom: Seq<u8>, end: int) -> Seq<char> {
    Seq::new((end + 1 - HEADER_TITLE_START) as nat, |i: int| rom[HEADER_TITLE_START + i] as char)
}

/// A loaded cartridge: the raw ROM image and where it came from.
#[derive(Debug)]
pub struct Cartridge {
    pub context: CartridgeContext,
    pub rom: Vec<u8>,
}

impl Cartridge {
    pub fn new(context: CartridgeContext, rom: Vec<u8>) -> (r: Self)
        ensures
            r.context == context,
            r.rom == rom,
    {
        Self { context, rom }
    }

    /// Accepts an already-read byte buffer; fails when the buffer is shorter
    /// than the minimum header span, so every loaded cartridge covers the
    /// whole header.
    pub fn load(context: CartridgeContext, rom: Vec<u8>) -> (r: Result<Self, FerrisBoyError>)
        ensures
            r is Ok <==> rom@.len() >= MIN_ROM_LEN,
            r is Ok ==> r->Ok_0.context == context && r->Ok_0.rom == rom,
            r is Err ==> r->Err_0 == (FerrisBoyError::InvalidInput {
                expected: MIN_ROM_LEN,
                actual: rom@.len() as usize,
            }),
    {
        if rom.len() < MIN_ROM_LEN {
            Err(FerrisBoyError::InvalidInput { expected: MIN_ROM_LEN, actual: rom.len() })
        } else {
            Ok(Self::new(context, rom))
        }
    }

    pub fn context(&self) -> (r: &CartridgeContext)
        ensures
            r == &self.context,
    {
        &self.context
    }

    pub fn rom_size(&self) -> (r: usize)
        ensures
            r == self.rom@.len(),
    {
        self.rom.len()
    }

    /// The full header span, when the image covers it.
    pub fn header(&self) -> (r: Option<&[u8]>)
        ensures
            if self.rom@.len() > HEADER_END {
                r is Some && r->0@ == self.rom@.subrange(HEADER_START as int, HEADER_END + 1)
            } else {
                r is None
            },
    {
        if self.rom.len() > HEADER_END {
            Some(slice_subrange(self.rom.as_slice(), HEADER_START, HEADER_END + 1))
        } else {
            None
        }
    }

    /// The logo bitmap span, when the image covers it.
    pub fn header_logo(&self) -> (r: Option<&[u8]>)
        ensures
            if self.rom@.len() > HEADER_LOGO_END {
                r is Some && r->0@ == self.rom@.subrange(HEADER_LOGO_START as int, HEADER_LOGO_END + 1)
            } else {
                r is None
            },
    {
        if self.rom.len() > HEADER_LOGO_END {
            Some(slice_subrange(self.rom.as_slice(), HEADER_LOGO_START, HEADER_LOGO_END + 1))
        } else {
            None
        }
    }

    /// The title bytes up to `end` inclusive as characters; `None` when the
    /// image does not cover them.
    fn title_upto(&self, end: usize) -> (r: Option<String>)
        requires
            HEADER_TITLE_START <= end < MIN_ROM_LEN,
        ensures
            if self.rom@.len() > end {
                r is Some && r->0@ == spec_title_chars(self.rom@, end as int)
            } else {
                r is None
            },
    {
        if self.rom.len() > end {
            let mut acc = String::new();
            let mut i: usize = HEADER_TITLE_START;
            while i <= end
                invariant
                    HEADER_TITLE_START <= i <= end + 1,
                    end < self.rom@.len(),
                    end < MIN_ROM_LEN,
                    acc@ == spec_title_chars(self.rom@, i - 1),
                decreases end + 1 - i,
            {
                let b = self.rom[i];
                push_char(&mut acc, b as char);
                proof {
                    assert(acc@ =~= spec_title_chars(self.rom@, i as int));
                }
                i += 1;
            }
            Some(acc)
        } else {
            None
        }
    }

    /// The original, 16-byte title field.
    pub fn header_title_16(&self) -> (r: Option<String>)
        ensures
            if self.rom@.len() > HEADER_TITLE_LEN_16_END {
                r is Some && r->0@ == spec_title_chars(self.rom@, HEADER_TITLE_LEN_16_END as int)
            } else {
                r is None
            },
    {
        self.title_upto(HEADER_TITLE_LEN_16_END)
    }

    /// The 15-byte title variant of later hardware revisions.
    pub fn header_title_15(&self) -> (r: Option<String>)
        ensures
            if self.rom@.len() > HEADER_TITLE_LEN_15_END {
                r is Some && r->0@ == spec_title_chars(self.rom@, HEADER_TITLE_LEN_15_END as int)
            } else {
                r is None
            },
    {
        self.title_upto(HEADER_TITLE_LEN_15_END)
    }

    /// The 11-byte title variant of the last hardware revision.
    pub fn header_title_11(&self) -> (r: Option<String>)
        ensures
            if self.rom@.len() > HEADER_TITLE_LEN_11_END {
                r is Some && r->0@ == spec_title_chars(self.rom@, HEADER_TITLE_LEN_11_END as int)
            } else {
                r is None
            },
    {
        self.title_upto(HEADER_TITLE_LEN_11_END)
    }

    /// The manufacturer-code span, when the image covers it.
    pub fn header_manufacturer_code(&self) -> (r: Option<&[u8]>)
        ensures
            if self.rom@.len() > HEADER_MANUFACTURER_CODE_END {
                r is Some && r->0@ == self.rom@.subrange(
                    HEADER_MANUFACTURER_CODE_START as int,
                    HEADER_MANUFACTURER_CODE_END + 1,
                )
            } else {
                r is None
            },
    {
        if self.rom.len() > HEADER_MANUFACTURER_CODE_END {
            Some(
                slice_subrange(
                    self.rom.as_slice(),
                    HEADER_MANUFACTURER_CODE_START,
                    HEADER_MANUFACTURER_CODE_END + 1,
                ),
            )
        } else {
            None
        }
    }

    /// The decoded color-compatibility flag, when the image covers its byte.
    pub fn header_color_game_boy_flag(&self) -> (r: Option<ColorGameBoyFlag>)
        ensures
            if self.rom@.len() > HEADER_COLOR_GAME_BOY_FLAG {
                r == Option::Some(
                    ColorGameBoyFlag::spec_from_byte(self.rom@[HEADER_COLOR_GAME_BOY_FLAG as int]),
                )
            } else {
                r is None
            },
    {
        if self.rom.len() > HEADER_COLOR_GAME_BOY_FLAG {
            Some(ColorGameBoyFlag::from_byte(&self.rom[HEADER_COLOR_GAME_BOY_FLAG]))
        } else {
            None
        }
    }

    /// The decoded two-byte licensee code, read big-endian; the unrecognized
    /// default when the image does not cover the code.
    pub fn header_new_licensee(&self) -> (r: NewLicensee)
        ensures
            r == if self.rom@.len() > HEADER_NEW_LICENSEE_CODE_END {
                NewLicensee::spec_from_word(
                    (self.rom@[HEADER_NEW_LICENSEE_CODE_START as int] as int * 0x100
                        + self.rom@[HEADER_NEW_LICENSEE_CODE_END as int] as int) as u16,
                )
            } else {
                NewLicensee::Unknown
            },
    {
        let bytes: Option<&[u8]> = if self.rom.len() > HEADER_NEW_LICENSEE_CODE_END {
            Some(
                slice_subrange(
                    self.rom.as_slice(),
                    HEADER_NEW_LICENSEE_CODE_START,
                    HEADER_NEW_LICENSEE_CODE_END + 1,
                ),
            )
        } else {
            None
        };
        match NewLicensee::from_bytes(bytes) {
            Ok(new_licensee) => new_licensee,
            Err(_) => NewLicensee::default(),
        }
    }

    /// The decoded super-console flag, when the image covers its byte.
    pub fn header_super_game_boy_flag(&self) -> (r: Option<SuperGameBoyFlag>)
        ensures
            if self.rom@.len() > HEADER_SUPER_GAME_BOY_FLAG {
                r == Option::Some(
                    SuperGameBoyFlag::spec_from_byte(self.rom@[HEADER_SUPER_GAME_BOY_FLAG as int]),
                )
            } else {
                r is None
            },
    {
        if self.rom.len() > HEADER_SUPER_GAME_BOY_FLAG {
            Some(SuperGameBoyFlag::from_byte(&self.rom[HEADER_SUPER_GAME_BOY_FLAG]))
        } else {
            None
        }
    }

    /// The decoded banking type, when the image covers its byte.
    pub fn header_cartridge_type(&self) -> (r: Option<CartridgeType>)
        ensures
            if self.rom@.len() > HEADER_CARTRIDGE_TYPE {
                r == Option::Some(spec_cartridge_type(self.rom@))
            } else {
                r is None
            },
    {
        if self.rom.len() > HEADER_CARTRIDGE_TYPE {
            Some(CartridgeType::from_byte(&self.rom[HEADER_CARTRIDGE_TYPE]))
        } else {
            None
        }
    }

    /// The decoded ROM-size code, when the image covers its byte.
    pub fn header_cartridge_rom_size(&self) -> (r: Option<RomSize>)
        ensures
            if self.rom@.len() > HEADER_ROM_SIZE {
                r == Option::Some(spec_rom_size_code(self.rom@))
            } else {
                r is None
            },
    {
        if self.rom.len() > HEADER_ROM_SIZE {
            Some(RomSize::from_byte(&self.rom[HEADER_ROM_SIZE]))
        } else {
            None
        }
    }

    /// The decoded RAM-size code, when the image covers its byte.
    pub fn header_cartridge_ram_size(&self) -> (r: Option<RamSize>)
        ensures
            if self.rom@.len() > HEADER_RAM_SIZE {
                r == Option::Some(spec_ram_size_code(self.rom@))
            } else {
                r is None
            },
    {
        if self.rom.len() > HEADER_RAM_SIZE {
            Some(RamSize::from_byte(&self.rom[HEADER_RAM_SIZE]))
        } else {
            None
        }
    }

    /// The decoded destination region, when the image covers its byte.
    pub fn header_destination(&self) -> (r: Option<Destination>)
        ensures
            if self.rom@.len() > HEADER_DESTINATION_CODE {
                r == Option::Some(
                    Destination::spec_from_byte(self.rom@[HEADER_DESTINATION_CODE as int]),
                )
            } else {
                r is None
            },
    {
        if self.rom.len() > HEADER_DESTINATION_CODE {
            Some(Destination::from_byte(&self.rom[HEADER_DESTINATION_CODE]))
        } else {
            None
        }
    }

    /// Recomputes the header checksum over its declared range and compares it
    /// with the embedded checksum byte. A mismatch (or an image too short to
    /// check) is `false`, an emulation-relevant fact, not an error.
    pub fn check_integrity(&self) -> (r: bool)
        ensures
            r == spec_integrity_ok(self.rom@),
    {
        if self.rom.len() < MIN_ROM_LEN {
            return false;
        }
        let mut acc: u8 = 0;
        let mut i: usize = HEADER_TITLE_START;
        while i < HEADER_CHECKSUM
            invariant
                self.rom@.len() >= MIN_ROM_LEN,
                HEADER_TITLE_START <= i <= HEADER_CHECKSUM,
                acc == spec_checksum_first_n(self.rom@, (i - HEADER_TITLE_START) as nat),
            decreases HEADER_CHECKSUM - i,
        {
            let b = self.rom[i];
            acc = acc.wrapping_sub(b).wrapping_sub(1);
            i += 1;
        }
        acc == self.rom[HEADER_CHECKSUM]
    }

    /// Whether the decoded banking type is one this emulator's controller
    /// supports.
    pub fn check_compatibility(&self) -> (r: bool)
        ensures
            r == Mbc::spec_supported_type(spec_cartridge_type(self.rom@)),
    {
        if self.rom.len() > HEADER_CARTRIDGE_TYPE {
            let cartridge_type = CartridgeType::from_byte(&self.rom[HEADER_CARTRIDGE_TYPE]);
            match cartridge_type {
                CartridgeType::RomOnly => true,
                CartridgeType::Mbc1 => true,
                CartridgeType::Mbc1AndRam => true,
                CartridgeType::Mbc1AndRamAndBattery => true,
                _ => false,
            }
        } else {
            false
        }
    }

    pub fn check_all(&self) -> (r: bool)
        ensures
            r == (spec_integrity_ok(self.rom@) && Mbc::spec_supported_type(
                spec_cartridge_type(self.rom@),
            )),
    {
        self.check_integrity() && self.check_compatibility()
    }

    /// Bank counts for this image, resolved through the documented tables.
    pub fn bank_geometry(&self) -> (r: BankGeometry)
        ensures
            r == spec_bank_geometry(self.rom@),
    {
        let rom_size_code = if self.rom.len() > HEADER_ROM_SIZE {
            RomSize::from_byte(&self.rom[HEADER_ROM_SIZE])
        } else {
            RomSize::Unknown
        };
        let ram_size_code = if self.rom.len() > HEADER_RAM_SIZE {
            RamSize::from_byte(&self.rom[HEADER_RAM_SIZE])
        } else {
            RamSize::Unknown
        };
        BankGeometry {
            rom_bank_count: rom_size_code.number_of_rom_banks(),
            ram_bank_count: ram_size_code.number_of_ram_8_kib_banks(),
        }
    }

    /// Bounds-checked raw access used by the controller when translating a
    /// logical address to a physical ROM offset; reads past the image yield
    /// the open-bus value.
    pub fn read_rom_byte(&self, offset: usize) -> (r: u8)
        ensures
            r == spec_rom_byte(self.rom@, offset as int),
    {
        if offset < self.rom.len() {
            self.rom[offset]
        } else {
            0xFF
        }
    }

    /// Law: bank geometry follows the documented tables alone. For every
    /// image, the geometry's counts equal the table entries for the image's
    /// decoded size codes, not anything read from the file directly.
    pub proof fn lemma_bank_geometry_follows_tables(rom: Seq<u8>)
        ensures
            spec_bank_geometry(rom).rom_bank_count == spec_rom_size_code(
                rom,
            ).spec_number_of_rom_banks(),
            spec_bank_geometry(rom).ram_bank_count == spec_ram_size_code(
                rom,
            ).spec_number_of_ram_8_kib_banks(),
    {
    }
}

} // verus!
