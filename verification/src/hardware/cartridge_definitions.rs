use vstd::prelude::*;
use crate::error::FerrisBoyError;

verus! {

// Fixed byte layout of the cartridge header, offsets into the ROM image.
pub const HEADER_START: usize = 0x0100;
pub const HEADER_ENTRY_POINT_START: usize = 0x0100;
pub const HEADER_ENTRY_POINT_END: usize = 0x0103;
pub const HEADER_LOGO_START: usize = 0x0104;
pub const HEADER_LOGO_END: usize = 0x0133;
pub const HEADER_TITLE_START: usize = 0x0134;
pub const HEADER_TITLE_LEN_11_END: usize = 0x013E;
pub const HEADER_TITLE_LEN_15_END: usize = 0x0142;
pub const HEADER_TITLE_LEN_16_END: usize = 0x0143;
pub const HEADER_MANUFACTURER_CODE_START: usize = 0x013F;
pub const HEADER_MANUFACTURER_CODE_END: usize = 0x0142;
pub const HEADER_COLOR_GAME_BOY_FLAG: usize = 0x0143;
pub const HEADER_NEW_LICENSEE_CODE_START: usize = 0x0144;
pub const HEADER_NEW_LICENSEE_CODE_END: usize = 0x0145;
pub const HEADER_SUPER_GAME_BOY_FLAG: usize = 0x0146;
pub const HEADER_CARTRIDGE_TYPE: usize = 0x0147;
pub const HEADER_ROM_SIZE: usize = 0x0148;
pub const HEADER_RAM_SIZE: usize = 0x0149;
pub const HEADER_DESTINATION_CODE: usize = 0x014A;
pub const HEADER_OLD_LICENSEE_CODE: usize = 0x014B;
pub const HEADER_MASK_ROM_VERSION_NUMBER: usize = 0x014C;
pub const HEADER_CHECKSUM: usize = 0x014D;
pub const HEADER_GLOBAL_CHECKSUM_START: usize = 0x014E;
pub const HEADER_GLOBAL_CHECKSUM_END: usize = 0x014F;
pub const HEADER_END: usize = 0x014F;

/// Number of bytes a well-formed cartridge image must hold: the header ends
/// at offset HEADER_END, so the minimum image length is HEADER_END + 1.
pub const MIN_ROM_LEN: usize = 0x0150;

/// Color-compatibility flag, header offset 0x0143.
#[derive(Debug, Clone, Copy, PartialEq, Eq)]
pub enum ColorGameBoyFlag {
    SupportsAndBackwardsCompatible,
    ColorGameBoyOnly,
    Unknown,
}

impl ColorGameBoyFlag {
    /// The codes the color flag table recognizes.
    pub open spec fn spec_known_byte(code: u8) -> bool {
        code == 0x80 || code == 0xC0
    }

    /// Total decode: every code resolves, unrecognized ones to `Unknown`.
    pub open spec fn spec_from_byte(code: u8) -> ColorGameBoyFlag {
        if code == 0x80 {
            ColorGameBoyFlag::SupportsAndBackwardsCompatible
        } else if code == 0xC0 {
            ColorGameBoyFlag::ColorGameBoyOnly
        } else {
            ColorGameBoyFlag::Unknown
        }
    }

    pub fn from_byte(byte: &u8) -> (r: Self)
        ensures
            r == Self::spec_from_byte(*byte),
    {
        match *byte {
            0x80 => Self::SupportsAndBackwardsCompatible,
            0xC0 => Self::ColorGameBoyOnly,
            _ => Self::Unknown,
        }
    }

    /// A code absent from the color flag table decodes to the designated
    /// default variant; the lookup is total and never an error.
    pub proof fn lemma_unrecognized_byte_defaults(code: u8)
        ensures
            !Self::spec_known_byte(code) ==> Self::spec_from_byte(code) == Self::Unknown,
    {
    }
}

impl Default for ColorGameBoyFlag {
    fn default() -> (r: Self)
        ensures
            r == ColorGameBoyFlag::Unknown,
    {
        ColorGameBoyFlag::Unknown
    }
}

/// Two-byte licensee code at header offsets 0x0144-0x0145, read big-endian.
#[derive(Debug, Clone, Copy, PartialEq, Eq)]
pub enum NewLicensee {
    NoLicensee,
    NintendoResearchAndDevelopment1,
    Capcom,
    ElectronicArts1,
    HudsonSoft1,
    BAi,
    Kss,
    PlanningOfficeWADA,
    PCMComplete,
    SanX,
    Kemco,
    SetaCorporation,
    Viacom,
    Nintendo,
    Bandai1,
    OceanSoftwareOrAcclaimEntertainment1,
    Konami1,
    HectorSoft,
    Taito,
    HudsonSoft2,
    Banpresto,
    UbiSoft,
    Atlus,
    MalibuInteractive,
    Angel,
    BulletProofSoftware,
    Irem,
    Absolute,
    AcclaimEntertainment,
    Activision,
    SammyUSACorporation,
    Konami2,
    HiTechExpressions,
    Ljn,
    Matchbox,
    Mattel,
    MiltonBradleyCompany,
    TitusInteractive,
    VirginGamesLtd,
    LucasfilmGames,
    OceanSoftware,
    ElectronicArts2,
    Infogrames,
    InterplayEntertainment,
    Broderbund,
    SculpturedSoftware,
    TheSalesCurveLimited,
    Thq,
    Accolade,
    MisawaEntertainment,
    Lozc,
    TokumaShoten,
    TsukudaOriginal,
    ChunsoftCo,
    VideoSystem,
    OceanSoftwareOrAcclaimEntertainment2,
    Varie,
    YonezawaOrSpal,
    Kaneko,
    PackInVideo,
    BottomUp,
    KonamiYuGiOh,
    Mto,
    Kodansha,
    Unknown,
}

impl NewLicensee {
    /// The codes the new-licensee table recognizes.
    pub open spec fn spec_known_word(code: u16) -> bool {
        code == 0x3030 || code == 0x3031 || code == 0x3038 || code == 0x3133 || code == 0x3138 || code == 0x3139 || code == 0x3230 || code == 0x3232 || code == 0x3234 || code == 0x3235 || code == 0x3238 || code == 0x3239 || code == 0x3330 || code == 0x3331 || code == 0x3332 || code == 0x3333 || code == 0x3334 || code == 0x3335 || code == 0x3337 || code == 0x3338 || code == 0x3339 || code == 0x3431 || code == 0x3432 || code == 0x3434 || code == 0x3436 || code == 0x3437 || code == 0x3439 || code == 0x3530 || code == 0x3531 || code == 0x3532 || code == 0x3533 || code == 0x3534 || code == 0x3535 || code == 0x3536 || code == 0x3537 || code == 0x3538 || code == 0x3539 || code == 0x3630 || code == 0x3631 || code == 0x3634 || code == 0x3637 || code == 0x3639 || code == 0x3730 || code == 0x3731 || code == 0x3732 || code == 0x3733 || code == 0x3735 || code == 0x3738 || code == 0x3739 || code == 0x3830 || code == 0x3833 || code == 0x3836 || code == 0x3837 || code == 0x3931 || code == 0x3932 || code == 0x3933 || code == 0x3935 || code == 0x3936 || code == 0x3937 || code == 0x3939 || code == 0x3948 || code == 0x4134 || code == 0x424C || code == 0x444B
    }

    /// Total decode: every code resolves, unrecognized ones to `Unknown`.
    pub open spec fn spec_from_word(code: u16) -> NewLicensee {
        if code == 0x3030 {
            NewLicensee::NoLicensee
        } else if code == 0x3031 {
            NewLicensee::NintendoResearchAndDevelopment1
        } else if code == 0x3038 {
            NewLicensee::Capcom
        } else if code == 0x3133 {
            NewLicensee::ElectronicArts1
        } else if code == 0x3138 {
            NewLicensee::HudsonSoft1
        } else if code == 0x3139 {
            NewLicensee::BAi
        } else if code == 0x3230 {
            NewLicensee::Kss
        } else if code == 0x3232 {
            NewLicensee::PlanningOfficeWADA
        } else if code == 0x3234 {
            NewLicensee::PCMComplete
        } else if code == 0x3235 {
            NewLicensee::SanX
        } else if code == 0x3238 {
            NewLicensee::Kemco
        } else if code == 0x3239 {
            NewLicensee::SetaCorporation
        } else if code == 0x3330 {
            NewLicensee::Viacom
        } else if code == 0x3331 {
            NewLicensee::Nintendo
        } else if code == 0x3332 {
            NewLicensee::Bandai1
        } else if code == 0x3333 {
            NewLicensee::OceanSoftwareOrAcclaimEntertainment1
        } else if code == 0x3334 {
            NewLicensee::Konami1
        } else if code == 0x3335 {
            NewLicensee::HectorSoft
        } else if code == 0x3337 {
            NewLicensee::Taito
        } else if code == 0x3338 {
            NewLicensee::HudsonSoft2
        } else if code == 0x3339 {
            NewLicensee::Banpresto
        } else if code == 0x3431 {
            NewLicensee::UbiSoft
        } else if code == 0x3432 {
            NewLicensee::Atlus
        } else if code == 0x3434 {
            NewLicensee::MalibuInteractive
        } else if code == 0x3436 {
            NewLicensee::Angel
        } else if code == 0x3437 {
            NewLicensee::BulletProofSoftware
        } else if code == 0x3439 {
            NewLicensee::Irem
        } else if code == 0x3530 {
            NewLicensee::Absolute
        } else if code == 0x3531 {
            NewLicensee::AcclaimEntertainment
        } else if code == 0x3532 {
            NewLicensee::Activision
        } else if code == 0x3533 {
            NewLicensee::SammyUSACorporation
        } else if code == 0x3534 {
            NewLicensee::Konami2
        } else if code == 0x3535 {
            NewLicensee::HiTechExpressions
        } else if code == 0x3536 {
            NewLicensee::Ljn
        } else if code == 0x3537 {
            NewLicensee::Matchbox
        } else if code == 0x3538 {
            NewLicensee::Mattel
        } else if code == 0x3539 {
            NewLicensee::MiltonBradleyCompany
        } else if code == 0x3630 {
            NewLicensee::TitusInteractive
        } else if code == 0x3631 {
            NewLicensee::VirginGamesLtd
        } else if code == 0x3634 {
            NewLicensee::LucasfilmGames
        } else if code == 0x3637 {
            NewLicensee::OceanSoftware
        } else if code == 0x3639 {
            NewLicensee::ElectronicArts2
        } else if code == 0x3730 {
            NewLicensee::Infogrames
        } else if code == 0x3731 {
            NewLicensee::InterplayEntertainment
        } else if code == 0x3732 {
            NewLicensee::Broderbund
        } else if code == 0x3733 {
            NewLicensee::SculpturedSoftware
        } else if code == 0x3735 {
            NewLicensee::TheSalesCurveLimited
        } else if code == 0x3738 {
            NewLicensee::Thq
        } else if code == 0x3739 {
            NewLicensee::Accolade
        } else if code == 0x3830 {
            NewLicensee::MisawaEntertainment
        } else if code == 0x3833 {
            NewLicensee::Lozc
        } else if code == 0x3836 {
            NewLicensee::TokumaShoten
        } else if code == 0x3837 {
            NewLicensee::TsukudaOriginal
        } else if code == 0x3931 {
            NewLicensee::ChunsoftCo
        } else if code == 0x3932 {
            NewLicensee::VideoSystem
        } else if code == 0x3933 {
            NewLicensee::OceanSoftwareOrAcclaimEntertainment2
        } else if code == 0x3935 {
            NewLicensee::Varie
        } else if code == 0x3936 {
            NewLicensee::YonezawaOrSpal
        } else if code == 0x3937 {
            NewLicensee::Kaneko
        } else if code == 0x3939 {
            NewLicensee::PackInVideo
        } else if code == 0x3948 {
            NewLicensee::BottomUp
        } else if code == 0x4134 {
            NewLicensee::KonamiYuGiOh
        } else if code == 0x424C {
            NewLicensee::Mto
        } else if code == 0x444B {
            NewLicensee::Kodansha
        } else {
            NewLicensee::Unknown
        }
    }

    pub fn from_word(word: &u16) -> (r: Self)
        ensures
            r == Self::spec_from_word(*word),
    {
        match *word {
            0x3030 => Self::NoLicensee,
            0x3031 => Self::NintendoResearchAndDevelopment1,
            0x3038 => Self::Capcom,
            0x3133 => Self::ElectronicArts1,
            0x3138 => Self::HudsonSoft1,
            0x3139 => Self::BAi,
            0x3230 => Self::Kss,
            0x3232 => Self::PlanningOfficeWADA,
            0x3234 => Self::PCMComplete,
            0x3235 => Self::SanX,
            0x3238 => Self::Kemco,
            0x3239 => Self::SetaCorporation,
            0x3330 => Self::Viacom,
            0x3331 => Self::Nintendo,
            0x3332 => Self::Bandai1,
            0x3333 => Self::OceanSoftwareOrAcclaimEntertainment1,
            0x3334 => Self::Konami1,
            0x3335 => Self::HectorSoft,
            0x3337 => Self::Taito,
            0x3338 => Self::HudsonSoft2,
            0x3339 => Self::Banpresto,
            0x3431 => Self::UbiSoft,
            0x3432 => Self::Atlus,
            0x3434 => Self::MalibuInteractive,
            0x3436 => Self::Angel,
            0x3437 => Self::BulletProofSoftware,
            0x3439 => Self::Irem,
            0x3530 => Self::Absolute,
            0x3531 => Self::AcclaimEntertainment,
            0x3532 => Self::Activision,
            0x3533 => Self::SammyUSACorporation,
            0x3534 => Self::Konami2,
            0x3535 => Self::HiTechExpressions,
            0x3536 => Self::Ljn,
            0x3537 => Self::Matchbox,
            0x3538 => Self::Mattel,
            0x3539 => Self::MiltonBradleyCompany,
            0x3630 => Self::TitusInteractive,
            0x3631 => Self::VirginGamesLtd,
            0x3634 => Self::LucasfilmGames,
            0x3637 => Self::OceanSoftware,
            0x3639 => Self::ElectronicArts2,
            0x3730 => Self::Infogrames,
            0x3731 => Self::InterplayEntertainment,
            0x3732 => Self::Broderbund,
            0x3733 => Self::SculpturedSoftware,
            0x3735 => Self::TheSalesCurveLimited,
            0x3738 => Self::Thq,
            0x3739 => Self::Accolade,
            0x3830 => Self::MisawaEntertainment,
            0x3833 => Self::Lozc,
            0x3836 => Self::TokumaShoten,
            0x3837 => Self::TsukudaOriginal,
            0x3931 => Self::ChunsoftCo,
            0x3932 => Self::VideoSystem,
            0x3933 => Self::OceanSoftwareOrAcclaimEntertainment2,
            0x3935 => Self::Varie,
            0x3936 => Self::YonezawaOrSpal,
            0x3937 => Self::Kaneko,
            0x3939 => Self::PackInVideo,
            0x3948 => Self::BottomUp,
            0x4134 => Self::KonamiYuGiOh,
            0x424C => Self::Mto,
            0x444B => Self::Kodansha,
            _ => Self::Unknown,
        }
    }

    /// A code absent from the new-licensee table decodes to the designated
    /// default variant; the lookup is total and never an error.
    pub proof fn lemma_unrecognized_word_defaults(code: u16)
        ensures
            !Self::spec_known_word(code) ==> Self::spec_from_word(code) == Self::Unknown,
    {
    }

    /// Decodes the two-byte code from an optional slice, as handed over by a
    /// bounds-checked header read. A missing or wrong-length slice is an
    /// `InvalidInput` error; a present two-byte slice always decodes (an
    /// unrecognized pair resolving to the default variant).
    pub fn from_bytes(bytes: Option<&[u8]>) -> (r: Result<Self, FerrisBoyError>)
        ensures
            match bytes {
                Option::None => r == Result::<Self, FerrisBoyError>::Err(
                    FerrisBoyError::InvalidInput { expected: 2, actual: 0 },
                ),
                Option::Some(b) => if b@.len() == 2 {
                    r == Result::<Self, FerrisBoyError>::Ok(
                        Self::spec_from_word(((b@[0] as int) * 0x100 + (b@[1] as int)) as u16),
                    )
                } else {
                    r == Result::<Self, FerrisBoyError>::Err(FerrisBoyError::InvalidInput {
                        expected: 2,
                        actual: b@.len() as usize,
                    })
                },
            },
    {
        let expected_bytes_length: usize = 2;
        let bytes: &[u8] = match bytes {
            Option::None => {
                return Err(FerrisBoyError::InvalidInput {
                    expected: expected_bytes_length,
                    actual: 0,
                });
            },
            Option::Some(bytes) => bytes,
        };
        let bytes_length = bytes.len();
        if bytes_length != expected_bytes_length {
            return Err(FerrisBoyError::InvalidInput {
                expected: expected_bytes_length,
                actual: bytes_length,
            });
        }
        let hi = *vstd::slice::slice_index_get(bytes, 0);
        let lo = *vstd::slice::slice_index_get(bytes, 1);
        let word: u16 = (hi as u16) * 0x100 + (lo as u16);
        Ok(NewLicensee::from_word(&word))
    }

}

impl Default for NewLicensee {
    fn default() -> (r: Self)
        ensures
            r == NewLicensee::Unknown,
    {
        NewLicensee::Unknown
    }
}

/// Super-console flag, header offset 0x0146.
#[derive(Debug, Clone, Copy, PartialEq, Eq)]
pub enum SuperGameBoyFlag {
    SupportsSuperGameBoyFunctions,
    Unsupported,
}

impl SuperGameBoyFlag {
    /// The codes the super-console flag table recognizes.
    pub open spec fn spec_known_byte(code: u8) -> bool {
        code == 0x03
    }

    /// Total decode: every code resolves, unrecognized ones to `Unsupported`.
    pub open spec fn spec_from_byte(code: u8) -> SuperGameBoyFlag {
        if code == 0x03 {
            SuperGameBoyFlag::SupportsSuperGameBoyFunctions
        } else {
            SuperGameBoyFlag::Unsupported
        }
    }

    pub fn from_byte(byte: &u8) -> (r: Self)
        ensures
            r == Self::spec_from_byte(*byte),
    {
        match *byte {
            0x03 => Self::SupportsSuperGameBoyFunctions,
            _ => Self::Unsupported,
        }
    }

    /// A code absent from the super-console flag table decodes to the designated
    /// default variant; the lookup is total and never an error.
    pub proof fn lemma_unrecognized_byte_defaults(code: u8)
        ensures
            !Self::spec_known_byte(code) ==> Self::spec_from_byte(code) == Self::Unsupported,
    {
    }
}

impl Default for SuperGameBoyFlag {
    fn default() -> (r: Self)
        ensures
            r == SuperGameBoyFlag::Unsupported,
    {
        SuperGameBoyFlag::Unsupported
    }
}

/// Cartridge/banking type, header offset 0x0147.
#[derive(Debug, Clone, Copy, PartialEq, Eq)]
pub enum CartridgeType {
    RomOnly,
    Mbc1,
    Mbc1AndRam,
    Mbc1AndRamAndBattery,
    Mbc2,
    Mbc2AndBattery,
    RomAndRam,
    RomAndRamAndBattery,
    Mmm01,
    Mmm01AndRam,
    Mmm01AndRamAndBattery,
    Mbc3AndTimerAndBattery,
    Mbc3AndTimerAndRamAndBattery,
    Mbc3,
    Mbc3AndRam,
    Mbc3AndRamAndBattery,
    Mbc5,
    Mbc5AndRam,
    Mbc5AndRamAndBattery,
    Mbc5AndRumble,
    Mbc5AndRumbleAndRam,
    Mbc5AndRumbleAndRamAndBattery,
    Mbc6,
    Mbc7AndSensorAndRumbleAndRamAndBattery,
    PocketCamera,
    BandaiTama5,
    HuC3,
    HuC1AndRamAndBattery,
    Unknown,
}

impl CartridgeType {
    /// The codes the cartridge-type table recognizes.
    pub open spec fn spec_known_byte(code: u8) -> bool {
        code == 0x00 || code == 0x01 || code == 0x02 || code == 0x03 || code == 0x05 || code == 0x06 || code == 0x08 || code == 0x09 || code == 0x0B || code == 0x0C || code == 0x0D || code == 0x0F || code == 0x10 || code == 0x11 || code == 0x12 || code == 0x13 || code == 0x19 || code == 0x1A || code == 0x1B || code == 0x1C || code == 0x1D || code == 0x1E || code == 0x20 || code == 0x22 || code == 0xFC || code == 0xFD || code == 0xFE || code == 0xFF
    }

    /// Total decode: every code resolves, unrecognized ones to `Unknown`.
    pub open spec fn spec_from_byte(code: u8) -> CartridgeType {
        if code == 0x00 {
            CartridgeType::RomOnly
        } else if code == 0x01 {
            CartridgeType::Mbc1
        } else if code == 0x02 {
            CartridgeType::Mbc1AndRam
        } else if code == 0x03 {
            CartridgeType::Mbc1AndRamAndBattery
        } else if code == 0x05 {
            CartridgeType::Mbc2
        } else if code == 0x06 {
            CartridgeType::Mbc2AndBattery
        } else if code == 0x08 {
            CartridgeType::RomAndRam
        } else if code == 0x09 {
            CartridgeType::RomAndRamAndBattery
        } else if code == 0x0B {
            CartridgeType::Mmm01
        } else if code == 0x0C {
            CartridgeType::Mmm01AndRam
        } else if code == 0x0D {
            CartridgeType::Mmm01AndRamAndBattery
        } else if code == 0x0F {
            CartridgeType::Mbc3AndTimerAndBattery
        } else if code == 0x10 {
            CartridgeType::Mbc3AndTimerAndRamAndBattery
        } else if code == 0x11 {
            CartridgeType::Mbc3
        } else if code == 0x12 {
            CartridgeType::Mbc3AndRam
        } else if code == 0x13 {
            CartridgeType::Mbc3AndRamAndBattery
        } else if code == 0x19 {
            CartridgeType::Mbc5
        } else if code == 0x1A {
            CartridgeType::Mbc5AndRam
        } else if code == 0x1B {
            CartridgeType::Mbc5AndRamAndBattery
        } else if code == 0x1C {
            CartridgeType::Mbc5AndRumble
        } else if code == 0x1D {
            CartridgeType::Mbc5AndRumbleAndRam
        } else if code == 0x1E {
            CartridgeType::Mbc5AndRumbleAndRamAndBattery
        } else if code == 0x20 {
            CartridgeType::Mbc6
        } else if code == 0x22 {
            CartridgeType::Mbc7AndSensorAndRumbleAndRamAndBattery
        } else if code == 0xFC {
            CartridgeType::PocketCamera
        } else if code == 0xFD {
            CartridgeType::BandaiTama5
        } else if code == 0xFE {
            CartridgeType::HuC3
        } else if code == 0xFF {
            CartridgeType::HuC1AndRamAndBattery
        } else {
            CartridgeType::Unknown
        }
    }

    pub fn from_byte(byte: &u8) -> (r: Self)
        ensures
            r == Self::spec_from_byte(*byte),
    {
        match *byte {
            0x00 => Self::RomOnly,
            0x01 => Self::Mbc1,
            0x02 => Self::Mbc1AndRam,
            0x03 => Self::Mbc1AndRamAndBattery,
            0x05 => Self::Mbc2,
            0x06 => Self::Mbc2AndBattery,
            0x08 => Self::RomAndRam,
            0x09 => Self::RomAndRamAndBattery,
            0x0B => Self::Mmm01,
            0x0C => Self::Mmm01AndRam,
            0x0D => Self::Mmm01AndRamAndBattery,
            0x0F => Self::Mbc3AndTimerAndBattery,
            0x10 => Self::Mbc3AndTimerAndRamAndBattery,
            0x11 => Self::Mbc3,
            0x12 => Self::Mbc3AndRam,
            0x13 => Self::Mbc3AndRamAndBattery,
            0x19 => Self::Mbc5,
            0x1A => Self::Mbc5AndRam,
            0x1B => Self::Mbc5AndRamAndBattery,
            0x1C => Self::Mbc5AndRumble,
            0x1D => Self::Mbc5AndRumbleAndRam,
            0x1E => Self::Mbc5AndRumbleAndRamAndBattery,
            0x20 => Self::Mbc6,
            0x22 => Self::Mbc7AndSensorAndRumbleAndRamAndBattery,
            0xFC => Self::PocketCamera,
            0xFD => Self::BandaiTama5,
            0xFE => Self::HuC3,
            0xFF => Self::HuC1AndRamAndBattery,
            _ => Self::Unknown,
        }
    }

    /// A code absent from the cartridge-type table decodes to the designated
    /// default variant; the lookup is total and never an error.
    pub proof fn lemma_unrecognized_byte_defaults(code: u8)
        ensures
            !Self::spec_known_byte(code) ==> Self::spec_from_byte(code) == Self::Unknown,
    {
    }
}

impl Default for CartridgeType {
    fn default() -> (r: Self)
        ensures
            r == CartridgeType::Unknown,
    {
        CartridgeType::Unknown
    }
}

/// ROM size code, header offset 0x0148.
#[derive(Debug, Clone, Copy, PartialEq, Eq)]
pub enum RomSize {
    _32KiB,
    _64KiB,
    _128KiB,
    _256KiB,
    _512KiB,
    _1MiB,
    _2MiB,
    _4MiB,
    _8MiB,
    _1_1MiB,
    _1_2MiB,
    _1_5MiB,
    Unknown,
}

impl RomSize {
    /// The codes the ROM-size table recognizes.
    pub open spec fn spec_known_byte(code: u8) -> bool {
        code == 0x00 || code == 0x01 || code == 0x02 || code == 0x03 || code == 0x04 || code == 0x05 || code == 0x06 || code == 0x07 || code == 0x08 || code == 0x52 || code == 0x53 || code == 0x54
    }

    /// Total decode: every code resolves, unrecognized ones to `Unknown`.
    pub open spec fn spec_from_byte(code: u8) -> RomSize {
        if code == 0x00 {
            RomSize::_32KiB
        } else if code == 0x01 {
            RomSize::_64KiB
        } else if code == 0x02 {
            RomSize::_128KiB
        } else if code == 0x03 {
            RomSize::_256KiB
        } else if code == 0x04 {
            RomSize::_512KiB
        } else if code == 0x05 {
            RomSize::_1MiB
        } else if code == 0x06 {
            RomSize::_2MiB
        } else if code == 0x07 {
            RomSize::_4MiB
        } else if code == 0x08 {
            RomSize::_8MiB
        } else if code == 0x52 {
            RomSize::_1_1MiB
        } else if code == 0x53 {
            RomSize::_1_2MiB
        } else if code == 0x54 {
            RomSize::_1_5MiB
        } else {
            RomSize::Unknown
        }
    }

    pub fn from_byte(byte: &u8) -> (r: Self)
        ensures
            r == Self::spec_from_byte(*byte),
    {
        match *byte {
            0x00 => Self::_32KiB,
            0x01 => Self::_64KiB,
            0x02 => Self::_128KiB,
            0x03 => Self::_256KiB,
            0x04 => Self::_512KiB,
            0x05 => Self::_1MiB,
            0x06 => Self::_2MiB,
            0x07 => Self::_4MiB,
            0x08 => Self::_8MiB,
            0x52 => Self::_1_1MiB,
            0x53 => Self::_1_2MiB,
            0x54 => Self::_1_5MiB,
            _ => Self::Unknown,
        }
    }

    /// A code absent from the ROM-size table decodes to the designated
    /// default variant; the lookup is total and never an error.
    pub proof fn lemma_unrecognized_byte_defaults(code: u8)
        ensures
            !Self::spec_known_byte(code) ==> Self::spec_from_byte(code) == Self::Unknown,
    {
    }

    /// Documented ROM bank count for each recognized size code; zero for the
    /// unrecognized default, which denotes "no such memory".
    pub open spec fn spec_number_of_rom_banks(self) -> nat {
        match self {
            RomSize::_32KiB => 2,
            RomSize::_64KiB => 4,
            RomSize::_128KiB => 8,
            RomSize::_256KiB => 16,
            RomSize::_512KiB => 32,
            RomSize::_1MiB => 64,
            RomSize::_2MiB => 128,
            RomSize::_4MiB => 256,
            RomSize::_8MiB => 512,
            RomSize::_1_1MiB => 72,
            RomSize::_1_2MiB => 80,
            RomSize::_1_5MiB => 96,
            RomSize::Unknown => 0,
        }
    }

    pub fn number_of_rom_banks(&self) -> (r: usize)
        ensures
            r == self.spec_number_of_rom_banks(),
    {
        match self {
            Self::_32KiB => 2,
            Self::_64KiB => 4,
            Self::_128KiB => 8,
            Self::_256KiB => 16,
            Self::_512KiB => 32,
            Self::_1MiB => 64,
            Self::_2MiB => 128,
            Self::_4MiB => 256,
            Self::_8MiB => 512,
            Self::_1_1MiB => 72,
            Self::_1_2MiB => 80,
            Self::_1_5MiB => 96,
            Self::Unknown => 0,
        }
    }

    /// The ROM bank count of any size code is at most 512.
    pub proof fn lemma_rom_bank_count_bound(self)
        ensures
            self.spec_number_of_rom_banks() <= 512,
    {
    }

}

impl Default for RomSize {
    fn default() -> (r: Self)
        ensures
            r == RomSize::Unknown,
    {
        RomSize::Unknown
    }
}

/// RAM size code, header offset 0x0149.
#[derive(Debug, Clone, Copy, PartialEq, Eq)]
pub enum RamSize {
    _0,
    Unused,
    _8KiB,
    _32KiB,
    _128KiB,
    _64KiB,
    Unknown,
}

impl RamSize {
    /// The codes the RAM-size table recognizes.
    pub open spec fn spec_known_byte(code: u8) -> bool {
        code == 0x00 || code == 0x01 || code == 0x02 || code == 0x03 || code == 0x04 || code == 0x05
    }

    /// Total decode: every code resolves, unrecognized ones to `Unknown`.
    pub open spec fn spec_from_byte(code: u8) -> RamSize {
        if code == 0x00 {
            RamSize::_0
        } else if code == 0x01 {
            RamSize::Unused
        } else if code == 0x02 {
            RamSize::_8KiB
        } else if code == 0x03 {
            RamSize::_32KiB
        } else if code == 0x04 {
            RamSize::_128KiB
        } else if code == 0x05 {
            RamSize::_64KiB
        } else {
            RamSize::Unknown
        }
    }

    pub fn from_byte(byte: &u8) -> (r: Self)
        ensures
            r == Self::spec_from_byte(*byte),
    {
        match *byte {
            0x00 => Self::_0,
            0x01 => Self::Unused,
            0x02 => Self::_8KiB,
            0x03 => Self::_32KiB,
            0x04 => Self::_128KiB,
            0x05 => Self::_64KiB,
            _ => Self::Unknown,
        }
    }

    /// A code absent from the RAM-size table decodes to the designated
    /// default variant; the lookup is total and never an error.
    pub proof fn lemma_unrecognized_byte_defaults(code: u8)
        ensures
            !Self::spec_known_byte(code) ==> Self::spec_from_byte(code) == Self::Unknown,
    {
    }

    /// Documented count of 8 KiB RAM banks for each recognized size code;
    /// zero where the code denotes no external RAM.
    pub open spec fn spec_number_of_ram_8_kib_banks(self) -> nat {
        match self {
            RamSize::_0 => 0,
            RamSize::Unused => 0,
            RamSize::_8KiB => 1,
            RamSize::_32KiB => 4,
            RamSize::_128KiB => 16,
            RamSize::_64KiB => 8,
            RamSize::Unknown => 0,
        }
    }

    pub fn number_of_ram_8_kib_banks(&self) -> (r: usize)
        ensures
            r == self.spec_number_of_ram_8_kib_banks(),
    {
        match self {
            Self::_0 => 0,
            Self::Unused => 0,
            Self::_8KiB => 1,
            Self::_32KiB => 4,
            Self::_128KiB => 16,
            Self::_64KiB => 8,
            Self::Unknown => 0,
        }
    }

    /// The RAM bank count of any size code is at most 16.
    pub proof fn lemma_ram_bank_count_bound(self)
        ensures
            self.spec_number_of_ram_8_kib_banks() <= 16,
    {
    }

}

impl Default for RamSize {
    fn default() -> (r: Self)
        ensures
            r == RamSize::Unknown,
    {
        RamSize::Unknown
    }
}

/// Destination region code, header offset 0x014A.
#[derive(Debug, Clone, Copy, PartialEq, Eq)]
pub enum Destination {
    JapanAndPossiblyOverseas,
    OverseasOnly,
    Unknown,
}

impl Destination {
    /// The codes the destination table recognizes.
    pub open spec fn spec_known_byte(code: u8) -> bool {
        code == 0x00 || code == 0x01
    }

    /// Total decode: every code resolves, unrecognized ones to `Unknown`.
    pub open spec fn spec_from_byte(code: u8) -> Destination {
        if code == 0x00 {
            Destination::JapanAndPossiblyOverseas
        } else if code == 0x01 {
            Destination::OverseasOnly
        } else {
            Destination::Unknown
        }
    }

    pub fn from_byte(byte: &u8) -> (r: Self)
        ensures
            r == Self::spec_from_byte(*byte),
    {
        match *byte {
            0x00 => Self::JapanAndPossiblyOverseas,
            0x01 => Self::OverseasOnly,
            _ => Self::Unknown,
        }
    }

    /// A code absent from the destination table decodes to the designated
    /// default variant; the lookup is total and never an error.
    pub proof fn lemma_unrecognized_byte_defaults(code: u8)
        ensures
            !Self::spec_known_byte(code) ==> Self::spec_from_byte(code) == Self::Unknown,
    {
    }
}

impl Default for Destination {
    fn default() -> (r: Self)
        ensures
            r == Destination::Unknown,
    {
        Destination::Unknown
    }
}

/// Legacy licensee code, resolved when the code at offset 0x014B is not the defer-to-newer-table sentinel (0x33).
#[derive(Debug, Clone, Copy, PartialEq, Eq)]
pub enum OldLicensee {
    NoLicensee,
    Nintendo1,
    Capcom1,
    HotB,
    Jaleco1,
    CoconutsJapan,
    EliteSystems1,
    ElectronicArts1,
    HudsonSoft,
    ItcEntertainment,
    Yanoman,
    JapanClary,
    VirginGamesLtd1,
    PcmComplete,
    SanX,
    Kemco1,
    SetaCorporation,
    Infogrames1,
    Nintendo2,
    Bandai2,
    NewLicenseeCodeIndicator,
    Konami1,
    HectorSoft,
    Capcom2,
    Banpresto1,
    EntertainmentInteractive,
    Gremlin,
    UbiSoft,
    Atlus1,
    MalibuInteractive1,
    Angel1,
    SpectrumHoloByte,
    Irem,
    VirginGamesLtd2,
    MalibuInteractive2,
    UsGold,
    Absolute,
    AcclaimEntertainment1,
    Activision,
    SammyUsaCorporation,
    GameTek,
    ParkPlace,
    Ljn1,
    Matchbox,
    MiltonBradleyCompany,
    Mindscape,
    Romstar,
    NaxatSoft,
    Tradewest,
    TitusInteractive,
    VirginGamesLtd,
    OceanSoftware,
    ElectronicArts2,
    EliteSystems2,
    ElectroBrain,
    Infogrames2,
    InterplayEntertainment,
    Broderbund1,
    SculpturedSoftware,
    TheSalesCurveLimited,
    Thq,
    Accolade,
    TriffixEntertainment,
    MicroProse,
    Kemco2,
    MisawaEntertainment,
    LozcG,
    TokumaShoten1,
    BulletProofSoftware,
    VicTokaiCorp,
    ApeInc,
    Imax,
    ChunsoftCo,
    VideoSystem,
    TsubarayaProductions,
    Varie1,
    YonezawaOrSpal,
    Kemco3,
    Arc,
    NihonBussan,
    Tecmo,
    Imagineer,
    Banpresto2,
    Nova,
    HoriElectric,
    Bandai3,
    Konami2,
    Kawada,
    Takara,
    TechnosJapan,
    Broderbund2,
    ToeiAnimation,
    Toho,
    Namco,
    AcclaimEntertainment2,
    AsciiCorporationOrNexsoft,
    Bandai4,
    SquareEnix,
    HalLaboratory,
    SNK,
    PonyCanyon1,
    CultureBrain,
    Sunsoft,
    SonyImagesoft,
    SammyCorporation,
    Taito1,
    Kemco,
    Square,
    TokumaShoten2,
    DataEast,
    TonkinHouse,
    Koei,
    Ufl,
    UltraGames,
    VapInc,
    UseCorporation,
    Meldac,
    PonyCanyon2,
    Angel2,
    Taito2,
    Sofel,
    Quest,
    SigmaEnterprises,
    AskKodanshaCo,
    NaxatSoft14,
    CopyaSystem,
    Banpresto3,
    Tomy,
    Ljn2,
    NipponComputerSystems,
    HumanEnt,
    Altron,
    Jaleco2,
    TowaChiki,
    Yutaka,
    Varie2,
    Epoch,
    Athena,
    AsmikAceEntertainment,
    Natsume,
    KingRecords,
    Atlus2,
    EpicSonyRecords,
    Igs,
    AWave,
    ExtremeEntertainment,
    Ljn3,
    Unknown,
}

impl OldLicensee {
    /// The codes the old-licensee table recognizes.
    pub open spec fn spec_known_word(code: u16) -> bool {
        code == 0x3030 || code == 0x3031 || code == 0x3038 || code == 0x3039 || code == 0x3041 || code == 0x3042 || code == 0x3043 || code == 0x3133 || code == 0x3138 || code == 0x3139 || code == 0x3141 || code == 0x3144 || code == 0x3146 || code == 0x3234 || code == 0x3235 || code == 0x3238 || code == 0x3239 || code == 0x3330 || code == 0x3331 || code == 0x3332 || code == 0x3333 || code == 0x3334 || code == 0x3335 || code == 0x3338 || code == 0x3339 || code == 0x3343 || code == 0x3345 || code == 0x3431 || code == 0x3432 || code == 0x3434 || code == 0x3436 || code == 0x3437 || code == 0x3439 || code == 0x3441 || code == 0x3444 || code == 0x3446 || code == 0x3530 || code == 0x3531 || code == 0x3532 || code == 0x3533 || code == 0x3534 || code == 0x3535 || code == 0x3536 || code == 0x3537 || code == 0x3539 || code == 0x3541 || code == 0x3542 || code == 0x3543 || code == 0x3544 || code == 0x3630 || code == 0x3631 || code == 0x3637 || code == 0x3639 || code == 0x3645 || code == 0x3646 || code == 0x3730 || code == 0x3731 || code == 0x3732 || code == 0x3733 || code == 0x3735 || code == 0x3738 || code == 0x3739 || code == 0x3741 || code == 0x3743 || code == 0x3746 || code == 0x3830 || code == 0x3833 || code == 0x3836 || code == 0x3842 || code == 0x3843 || code == 0x3845 || code == 0x3846 || code == 0x3931 || code == 0x3932 || code == 0x3933 || code == 0x3935 || code == 0x3936 || code == 0x3937 || code == 0x3939 || code == 0x3941 || code == 0x3942 || code == 0x3943 || code == 0x3944 || code == 0x3946 || code == 0x4131 || code == 0x4132 || code == 0x4134 || code == 0x4136 || code == 0x4137 || code == 0x4139 || code == 0x4141 || code == 0x4143 || code == 0x4144 || code == 0x4146 || code == 0x4230 || code == 0x4231 || code == 0x4232 || code == 0x4234 || code == 0x4236 || code == 0x4237 || code == 0x4239 || code == 0x4241 || code == 0x4242 || code == 0x4244 || code == 0x4246 || code == 0x4330 || code == 0x4332 || code == 0x4333 || code == 0x4334 || code == 0x4335 || code == 0x4336 || code == 0x4338 || code == 0x4339 || code == 0x4341 || code == 0x4342 || code == 0x4343 || code == 0x4344 || code == 0x4345 || code == 0x4346 || code == 0x4430 || code == 0x4431 || code == 0x4432 || code == 0x4433 || code == 0x4434 || code == 0x4436 || code == 0x4437 || code == 0x4439 || code == 0x4441 || code == 0x4442 || code == 0x4444 || code == 0x4445 || code == 0x4446 || code == 0x4530 || code == 0x4531 || code == 0x4532 || code == 0x4533 || code == 0x4535 || code == 0x4537 || code == 0x4538 || code == 0x4539 || code == 0x4541 || code == 0x4542 || code == 0x4543 || code == 0x4545 || code == 0x4630 || code == 0x4633 || code == 0x4646
    }

    /// Total decode: every code resolves, unrecognized ones to `Unknown`.
    pub open spec fn spec_from_word(code: u16) -> OldLicensee {
        if code == 0x3030 {
            OldLicensee::NoLicensee
        } else if code == 0x3031 {
            OldLicensee::Nintendo1
        } else if code == 0x3038 {
            OldLicensee::Capcom1
        } else if code == 0x3039 {
            OldLicensee::HotB
        } else if code == 0x3041 {
            OldLicensee::Jaleco1
        } else if code == 0x3042 {
            OldLicensee::CoconutsJapan
        } else if code == 0x3043 {
            OldLicensee::EliteSystems1
        } else if code == 0x3133 {
            OldLicensee::ElectronicArts1
        } else if code == 0x3138 {
            OldLicensee::HudsonSoft
        } else if code == 0x3139 {
            OldLicensee::ItcEntertainment
        } else if code == 0x3141 {
            OldLicensee::Yanoman
        } else if code == 0x3144 {
            OldLicensee::JapanClary
        } else if code == 0x3146 {
            OldLicensee::VirginGamesLtd1
        } else if code == 0x3234 {
            OldLicensee::PcmComplete
        } else if code == 0x3235 {
            OldLicensee::SanX
        } else if code == 0x3238 {
            OldLicensee::Kemco1
        } else if code == 0x3239 {
            OldLicensee::SetaCorporation
        } else if code == 0x3330 {
            OldLicensee::Infogrames1
        } else if code == 0x3331 {
            OldLicensee::Nintendo2
        } else if code == 0x3332 {
            OldLicensee::Bandai2
        } else if code == 0x3333 {
            OldLicensee::NewLicenseeCodeIndicator
        } else if code == 0x3334 {
            OldLicensee::Konami1
        } else if code == 0x3335 {
            OldLicensee::HectorSoft
        } else if code == 0x3338 {
            OldLicensee::Capcom2
        } else if code == 0x3339 {
            OldLicensee::Banpresto1
        } else if code == 0x3343 {
            OldLicensee::EntertainmentInteractive
        } else if code == 0x3345 {
            OldLicensee::Gremlin
        } else if code == 0x3431 {
            OldLicensee::UbiSoft
        } else if code == 0x3432 {
            OldLicensee::Atlus1
        } else if code == 0x3434 {
            OldLicensee::MalibuInteractive1
        } else if code == 0x3436 {
            OldLicensee::Angel1
        } else if code == 0x3437 {
            OldLicensee::SpectrumHoloByte
        } else if code == 0x3439 {
            OldLicensee::Irem
        } else if code == 0x3441 {
            OldLicensee::VirginGamesLtd2
        } else if code == 0x3444 {
            OldLicensee::MalibuInteractive2
        } else if code == 0x3446 {
            OldLicensee::UsGold
        } else if code == 0x3530 {
            OldLicensee::Absolute
        } else if code == 0x3531 {
            OldLicensee::AcclaimEntertainment1
        } else if code == 0x3532 {
            OldLicensee::Activision
        } else if code == 0x3533 {
            OldLicensee::SammyUsaCorporation
        } else if code == 0x3534 {
            OldLicensee::GameTek
        } else if code == 0x3535 {
            OldLicensee::ParkPlace
        } else if code == 0x3536 {
            OldLicensee::Ljn1
        } else if code == 0x3537 {
            OldLicensee::Matchbox
        } else if code == 0x3539 {
            OldLicensee::MiltonBradleyCompany
        } else if code == 0x3541 {
            OldLicensee::Mindscape
        } else if code == 0x3542 {
            OldLicensee::Romstar
        } else if code == 0x3543 {
            OldLicensee::NaxatSoft
        } else if code == 0x3544 {
            OldLicensee::Tradewest
        } else if code == 0x3630 {
            OldLicensee::TitusInteractive
        } else if code == 0x3631 {
            OldLicensee::VirginGamesLtd
        } else if code == 0x3637 {
            OldLicensee::OceanSoftware
        } else if code == 0x3639 {
            OldLicensee::ElectronicArts2
        } else if code == 0x3645 {
            OldLicensee::EliteSystems2
        } else if code == 0x3646 {
            OldLicensee::ElectroBrain
        } else if code == 0x3730 {
            OldLicensee::Infogrames2
        } else if code == 0x3731 {
            OldLicensee::InterplayEntertainment
        } else if code == 0x3732 {
            OldLicensee::Broderbund1
        } else if code == 0x3733 {
            OldLicensee::SculpturedSoftware
        } else if code == 0x3735 {
            OldLicensee::TheSalesCurveLimited
        } else if code == 0x3738 {
            OldLicensee::Thq
        } else if code == 0x3739 {
            OldLicensee::Accolade
        } else if code == 0x3741 {
            OldLicensee::TriffixEntertainment
        } else if code == 0x3743 {
            OldLicensee::MicroProse
        } else if code == 0x3746 {
            OldLicensee::Kemco2
        } else if code == 0x3830 {
            OldLicensee::MisawaEntertainment
        } else if code == 0x3833 {
            OldLicensee::LozcG
        } else if code == 0x3836 {
            OldLicensee::TokumaShoten1
        } else if code == 0x3842 {
            OldLicensee::BulletProofSoftware
        } else if code == 0x3843 {
            OldLicensee::VicTokaiCorp
        } else if code == 0x3845 {
            OldLicensee::ApeInc
        } else if code == 0x3846 {
            OldLicensee::Imax
        } else if code == 0x3931 {
            OldLicensee::ChunsoftCo
        } else if code == 0x3932 {
            OldLicensee::VideoSystem
        } else if code == 0x3933 {
            OldLicensee::TsubarayaProductions
        } else if code == 0x3935 {
            OldLicensee::Varie1
        } else if code == 0x3936 {
            OldLicensee::YonezawaOrSpal
        } else if code == 0x3937 {
            OldLicensee::Kemco3
        } else if code == 0x3939 {
            OldLicensee::Arc
        } else if code == 0x3941 {
            OldLicensee::NihonBussan
        } else if code == 0x3942 {
            OldLicensee::Tecmo
        } else if code == 0x3943 {
            OldLicensee::Imagineer
        } else if code == 0x3944 {
            OldLicensee::Banpresto2
        } else if code == 0x3946 {
            OldLicensee::Nova
        } else if code == 0x4131 {
            OldLicensee::HoriElectric
        } else if code == 0x4132 {
            OldLicensee::Bandai3
        } else if code == 0x4134 {
            OldLicensee::Konami2
        } else if code == 0x4136 {
            OldLicensee::Kawada
        } else if code == 0x4137 {
            OldLicensee::Takara
        } else if code == 0x4139 {
            OldLicensee::TechnosJapan
        } else if code == 0x4141 {
            OldLicensee::Broderbund2
        } else if code == 0x4143 {
            OldLicensee::ToeiAnimation
        } else if code == 0x4144 {
            OldLicensee::Toho
        } else if code == 0x4146 {
            OldLicensee::Namco
        } else if code == 0x4230 {
            OldLicensee::AcclaimEntertainment2
        } else if code == 0x4231 {
            OldLicensee::AsciiCorporationOrNexsoft
        } else if code == 0x4232 {
            OldLicensee::Bandai4
        } else if code == 0x4234 {
            OldLicensee::SquareEnix
        } else if code == 0x4236 {
            OldLicensee::HalLaboratory
        } else if code == 0x4237 {
            OldLicensee::SNK
        } else if code == 0x4239 {
            OldLicensee::PonyCanyon1
        } else if code == 0x4241 {
            OldLicensee::CultureBrain
        } else if code == 0x4242 {
            OldLicensee::Sunsoft
        } else if code == 0x4244 {
            OldLicensee::SonyImagesoft
        } else if code == 0x4246 {
            OldLicensee::SammyCorporation
        } else if code == 0x4330 {
            OldLicensee::Taito1
        } else if code == 0x4332 {
            OldLicensee::Kemco
        } else if code == 0x4333 {
            OldLicensee::Square
        } else if code == 0x4334 {
            OldLicensee::TokumaShoten2
        } else if code == 0x4335 {
            OldLicensee::DataEast
        } else if code == 0x4336 {
            OldLicensee::TonkinHouse
        } else if code == 0x4338 {
            OldLicensee::Koei
        } else if code == 0x4339 {
            OldLicensee::Ufl
        } else if code == 0x4341 {
            OldLicensee::UltraGames
        } else if code == 0x4342 {
            OldLicensee::VapInc
        } else if code == 0x4343 {
            OldLicensee::UseCorporation
        } else if code == 0x4344 {
            OldLicensee::Meldac
        } else if code == 0x4345 {
            OldLicensee::PonyCanyon2
        } else if code == 0x4346 {
            OldLicensee::Angel2
        } else if code == 0x4430 {
            OldLicensee::Taito2
        } else if code == 0x4431 {
            OldLicensee::Sofel
        } else if code == 0x4432 {
            OldLicensee::Quest
        } else if code == 0x4433 {
            OldLicensee::SigmaEnterprises
        } else if code == 0x4434 {
            OldLicensee::AskKodanshaCo
        } else if code == 0x4436 {
            OldLicensee::NaxatSoft14
        } else if code == 0x4437 {
            OldLicensee::CopyaSystem
        } else if code == 0x4439 {
            OldLicensee::Banpresto3
        } else if code == 0x4441 {
            OldLicensee::Tomy
        } else if code == 0x4442 {
            OldLicensee::Ljn2
        } else if code == 0x4444 {
            OldLicensee::NipponComputerSystems
        } else if code == 0x4445 {
            OldLicensee::HumanEnt
        } else if code == 0x4446 {
            OldLicensee::Altron
        } else if code == 0x4530 {
            OldLicensee::Jaleco2
        } else if code == 0x4531 {
            OldLicensee::TowaChiki
        } else if code == 0x4532 {
            OldLicensee::Yutaka
        } else if code == 0x4533 {
            OldLicensee::Varie2
        } else if code == 0x4535 {
            OldLicensee::Epoch
        } else if code == 0x4537 {
            OldLicensee::Athena
        } else if code == 0x4538 {
            OldLicensee::AsmikAceEntertainment
        } else if code == 0x4539 {
            OldLicensee::Natsume
        } else if code == 0x4541 {
            OldLicensee::KingRecords
        } else if code == 0x4542 {
            OldLicensee::Atlus2
        } else if code == 0x4543 {
            OldLicensee::EpicSonyRecords
        } else if code == 0x4545 {
            OldLicensee::Igs
        } else if code == 0x4630 {
            OldLicensee::AWave
        } else if code == 0x4633 {
            OldLicensee::ExtremeEntertainment
        } else if code == 0x4646 {
            OldLicensee::Ljn3
        } else {
            OldLicensee::Unknown
        }
    }

    pub fn from_word(word: &u16) -> (r: Self)
        ensures
            r == Self::spec_from_word(*word),
    {
        match *word {
            0x3030 => Self::NoLicensee,
            0x3031 => Self::Nintendo1,
            0x3038 => Self::Capcom1,
            0x3039 => Self::HotB,
            0x3041 => Self::Jaleco1,
            0x3042 => Self::CoconutsJapan,
            0x3043 => Self::EliteSystems1,
            0x3133 => Self::ElectronicArts1,
            0x3138 => Self::HudsonSoft,
            0x3139 => Self::ItcEntertainment,
            0x3141 => Self::Yanoman,
            0x3144 => Self::JapanClary,
            0x3146 => Self::VirginGamesLtd1,
            0x3234 => Self::PcmComplete,
            0x3235 => Self::SanX,
            0x3238 => Self::Kemco1,
            0x3239 => Self::SetaCorporation,
            0x3330 => Self::Infogrames1,
            0x3331 => Self::Nintendo2,
            0x3332 => Self::Bandai2,
            0x3333 => Self::NewLicenseeCodeIndicator,
            0x3334 => Self::Konami1,
            0x3335 => Self::HectorSoft,
            0x3338 => Self::Capcom2,
            0x3339 => Self::Banpresto1,
            0x3343 => Self::EntertainmentInteractive,
            0x3345 => Self::Gremlin,
            0x3431 => Self::UbiSoft,
            0x3432 => Self::Atlus1,
            0x3434 => Self::MalibuInteractive1,
            0x3436 => Self::Angel1,
            0x3437 => Self::SpectrumHoloByte,
            0x3439 => Self::Irem,
            0x3441 => Self::VirginGamesLtd2,
            0x3444 => Self::MalibuInteractive2,
            0x3446 => Self::UsGold,
            0x3530 => Self::Absolute,
            0x3531 => Self::AcclaimEntertainment1,
            0x3532 => Self::Activision,
            0x3533 => Self::SammyUsaCorporation,
            0x3534 => Self::GameTek,
            0x3535 => Self::ParkPlace,
            0x3536 => Self::Ljn1,
            0x3537 => Self::Matchbox,
            0x3539 => Self::MiltonBradleyCompany,
            0x3541 => Self::Mindscape,
            0x3542 => Self::Romstar,
            0x3543 => Self::NaxatSoft,
            0x3544 => Self::Tradewest,
            0x3630 => Self::TitusInteractive,
            0x3631 => Self::VirginGamesLtd,
            0x3637 => Self::OceanSoftware,
            0x3639 => Self::ElectronicArts2,
            0x3645 => Self::EliteSystems2,
            0x3646 => Self::ElectroBrain,
            0x3730 => Self::Infogrames2,
            0x3731 => Self::InterplayEntertainment,
            0x3732 => Self::Broderbund1,
            0x3733 => Self::SculpturedSoftware,
            0x3735 => Self::TheSalesCurveLimited,
            0x3738 => Self::Thq,
            0x3739 => Self::Accolade,
            0x3741 => Self::TriffixEntertainment,
            0x3743 => Self::MicroProse,
            0x3746 => Self::Kemco2,
            0x3830 => Self::MisawaEntertainment,
            0x3833 => Self::LozcG,
            0x3836 => Self::TokumaShoten1,
            0x3842 => Self::BulletProofSoftware,
            0x3843 => Self::VicTokaiCorp,
            0x3845 => Self::ApeInc,
            0x3846 => Self::Imax,
            0x3931 => Self::ChunsoftCo,
            0x3932 => Self::VideoSystem,
            0x3933 => Self::TsubarayaProductions,
            0x3935 => Self::Varie1,
            0x3936 => Self::YonezawaOrSpal,
            0x3937 => Self::Kemco3,
            0x3939 => Self::Arc,
            0x3941 => Self::NihonBussan,
            0x3942 => Self::Tecmo,
            0x3943 => Self::Imagineer,
            0x3944 => Self::Banpresto2,
            0x3946 => Self::Nova,
            0x4131 => Self::HoriElectric,
            0x4132 => Self::Bandai3,
            0x4134 => Self::Konami2,
            0x4136 => Self::Kawada,
            0x4137 => Self::Takara,
            0x4139 => Self::TechnosJapan,
            0x4141 => Self::Broderbund2,
            0x4143 => Self::ToeiAnimation,
            0x4144 => Self::Toho,
            0x4146 => Self::Namco,
            0x4230 => Self::AcclaimEntertainment2,
            0x4231 => Self::AsciiCorporationOrNexsoft,
            0x4232 => Self::Bandai4,
            0x4234 => Self::SquareEnix,
            0x4236 => Self::HalLaboratory,
            0x4237 => Self::SNK,
            0x4239 => Self::PonyCanyon1,
            0x4241 => Self::CultureBrain,
            0x4242 => Self::Sunsoft,
            0x4244 => Self::SonyImagesoft,
            0x4246 => Self::SammyCorporation,
            0x4330 => Self::Taito1,
            0x4332 => Self::Kemco,
            0x4333 => Self::Square,
            0x4334 => Self::TokumaShoten2,
            0x4335 => Self::DataEast,
            0x4336 => Self::TonkinHouse,
            0x4338 => Self::Koei,
            0x4339 => Self::Ufl,
            0x4341 => Self::UltraGames,
            0x4342 => Self::VapInc,
            0x4343 => Self::UseCorporation,
            0x4344 => Self::Meldac,
            0x4345 => Self::PonyCanyon2,
            0x4346 => Self::Angel2,
            0x4430 => Self::Taito2,
            0x4431 => Self::Sofel,
            0x4432 => Self::Quest,
            0x4433 => Self::SigmaEnterprises,
            0x4434 => Self::AskKodanshaCo,
            0x4436 => Self::NaxatSoft14,
            0x4437 => Self::CopyaSystem,
            0x4439 => Self::Banpresto3,
            0x4441 => Self::Tomy,
            0x4442 => Self::Ljn2,
            0x4444 => Self::NipponComputerSystems,
            0x4445 => Self::HumanEnt,
            0x4446 => Self::Altron,
            0x4530 => Self::Jaleco2,
            0x4531 => Self::TowaChiki,
            0x4532 => Self::Yutaka,
            0x4533 => Self::Varie2,
            0x4535 => Self::Epoch,
            0x4537 => Self::Athena,
            0x4538 => Self::AsmikAceEntertainment,
            0x4539 => Self::Natsume,
            0x4541 => Self::KingRecords,
            0x4542 => Self::Atlus2,
            0x4543 => Self::EpicSonyRecords,
            0x4545 => Self::Igs,
            0x4630 => Self::AWave,
            0x4633 => Self::ExtremeEntertainment,
            0x4646 => Self::Ljn3,
            _ => Self::Unknown,
        }
    }

    /// A code absent from the old-licensee table decodes to the designated
    /// default variant; the lookup is total and never an error.
    pub proof fn lemma_unrecognized_word_defaults(code: u16)
        ensures
            !Self::spec_known_word(code) ==> Self::spec_from_word(code) == Self::Unknown,
    {
    }

    /// Decodes the two-byte code from an optional slice, as handed over by a
    /// bounds-checked header read. A missing or wrong-length slice is an
    /// `InvalidInput` error; a present two-byte slice always decodes (an
    /// unrecognized pair resolving to the default variant).
    pub fn from_bytes(bytes: Option<&[u8]>) -> (r: Result<Self, FerrisBoyError>)
        ensures
            match bytes {
                Option::None => r == Result::<Self, FerrisBoyError>::Err(
                    FerrisBoyError::InvalidInput { expected: 2, actual: 0 },
                ),
                Option::Some(b) => if b@.len() == 2 {
                    r == Result::<Self, FerrisBoyError>::Ok(
                        Self::spec_from_word(((b@[0] as int) * 0x100 + (b@[1] as int)) as u16),
                    )
                } else {
                    r == Result::<Self, FerrisBoyError>::Err(FerrisBoyError::InvalidInput {
                        expected: 2,
                        actual: b@.len() as usize,
                    })
                },
            },
    {
        let expected_bytes_length: usize = 2;
        let bytes: &[u8] = match bytes {
            Option::None => {
                return Err(FerrisBoyError::InvalidInput {
                    expected: expected_bytes_length,
                    actual: 0,
                });
            },
            Option::Some(bytes) => bytes,
        };
        let bytes_length = bytes.len();
        if bytes_length != expected_bytes_length {
            return Err(FerrisBoyError::InvalidInput {
                expected: expected_bytes_length,
                actual: bytes_length,
            });
        }
        let hi = *vstd::slice::slice_index_get(bytes, 0);
        let lo = *vstd::slice::slice_index_get(bytes, 1);
        let word: u16 = (hi as u16) * 0x100 + (lo as u16);
        Ok(OldLicensee::from_word(&word))
    }

}

impl Default for OldLicensee {
    fn default() -> (r: Self)
        ensures
            r == OldLicensee::Unknown,
    {
        OldLicensee::Unknown
    }
}

} // verus!
