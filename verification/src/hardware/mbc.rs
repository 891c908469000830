use vstd::prelude::*;
use super::cartridge_definitions::CartridgeType;

verus! {

/// Size in bytes of one switchable ROM bank (the 0x4000-0x7FFF window).
pub const ROM_BANK_SIZE: usize = 0x4000;

/// Size in bytes of one switchable external-RAM bank (the 0xA000-0xBFFF window).
pub const RAM_BANK_SIZE: usize = 0x2000;

/// Which banking scheme the controller emulates, keyed by the cartridge type.
/// Cartridge types outside the supported set degrade to `Unsupported`: a
/// no-op, fixed-bank-0 controller, so an unrecognized cartridge still boots
/// in a read-only, single-bank mode.
#[derive(Debug, Clone, Copy, PartialEq, Eq, Structural)]
pub enum MbcKind {
    /// No banking hardware: the 32 KiB ROM is mapped linearly.
    NoMbc,
    /// The first banking controller: 5-bit ROM bank register, 2-bit secondary
    /// register, RAM-enable gate and a banking-mode flag.
    Mbc1,
    /// Fallback for banking schemes this controller does not emulate.
    Unsupported,
}

/// Mutable banking registers. Mutated only by writes the address bus forwards
/// into the controller's register address windows.
#[derive(Debug, Clone, Copy, PartialEq, Eq)]
pub struct MbcState {
    /// 5-bit ROM bank register; the hardware never holds 0 here (a write of
    /// 0 selects bank 1).
    pub rom_bank: u8,
    /// 2-bit secondary register: RAM bank, or ROM bank high bits.
    pub ram_bank: u8,
    /// RAM-enable gate; when clear, external RAM reads and writes are voided.
    pub ram_enabled: bool,
    /// Banking-mode flag: when set, the secondary register addresses RAM banks.
    pub banking_mode: bool,
}

/// The memory-bank controller: banking scheme, register state, and the
/// cartridge's actual bank counts (used for wrap-around on out-of-range
/// bank selections).
#[derive(Debug, Clone, Copy, PartialEq, Eq)]
pub struct Mbc {
    pub kind: MbcKind,
    pub state: MbcState,
    pub rom_bank_count: usize,
    pub ram_bank_count: usize,
}

impl Mbc {
    /// Validity: bank counts within the documented tables' ranges, register
    /// values within their significant bits, and the ROM bank register
    /// non-zero where the scheme demands it.
    pub open spec fn wf(self) -> bool {
        &&& self.rom_bank_count <= 512
        &&& self.ram_bank_count <= 16
        &&& self.state.rom_bank <= 0x1F
        &&& self.state.ram_bank <= 0x03
        &&& self.state.rom_bank >= 1
    }

    /// Whether this emulator's controller supports a decoded cartridge type.
    pub open spec fn spec_supported_type(t: CartridgeType) -> bool {
        ||| t == CartridgeType::RomOnly
        ||| t == CartridgeType::Mbc1
        ||| t == CartridgeType::Mbc1AndRam
        ||| t == CartridgeType::Mbc1AndRamAndBattery
    }

    /// The banking scheme chosen for a decoded cartridge type.
    pub open spec fn spec_kind_of_type(t: CartridgeType) -> MbcKind {
        if t == CartridgeType::RomOnly {
            MbcKind::NoMbc
        } else if t == CartridgeType::Mbc1 || t == CartridgeType::Mbc1AndRam
            || t == CartridgeType::Mbc1AndRamAndBattery {
            MbcKind::Mbc1
        } else {
            MbcKind::Unsupported
        }
    }

    /// Register state at cartridge load: bank 1 selected, gate closed,
    /// simple banking mode.
    pub open spec fn spec_initial_state() -> MbcState {
        MbcState { rom_bank: 1, ram_bank: 0, ram_enabled: false, banking_mode: false }
    }

    pub fn new(cartridge_type: CartridgeType, rom_bank_count: usize, ram_bank_count: usize) -> (r:
        Mbc)
        requires
            rom_bank_count <= 512,
            ram_bank_count <= 16,
        ensures
            r.wf(),
            r.kind == Self::spec_kind_of_type(cartridge_type),
            r.state == Self::spec_initial_state(),
            r.rom_bank_count == rom_bank_count,
            r.ram_bank_count == ram_bank_count,
    {
        let kind = match cartridge_type {
            CartridgeType::RomOnly => MbcKind::NoMbc,
            CartridgeType::Mbc1 => MbcKind::Mbc1,
            CartridgeType::Mbc1AndRam => MbcKind::Mbc1,
            CartridgeType::Mbc1AndRamAndBattery => MbcKind::Mbc1,
            _ => MbcKind::Unsupported,
        };
        Mbc {
            kind,
            state: MbcState { rom_bank: 1, ram_bank: 0, ram_enabled: false, banking_mode: false },
            rom_bank_count,
            ram_bank_count,
        }
    }

    /// The ROM bank index the registers currently select, before wrap-around.
    /// For `Mbc1` the secondary register supplies the two high bits; the
    /// no-banking scheme maps the switchable window linearly (bank 1); the
    /// unsupported fallback stays fixed on bank 0.
    pub open spec fn spec_selected_rom_bank(self) -> nat {
        match self.kind {
            MbcKind::NoMbc => 1,
            MbcKind::Mbc1 => self.state.ram_bank as nat * 32 + self.state.rom_bank as nat,
            MbcKind::Unsupported => 0,
        }
    }

    /// The physical ROM bank mapped into the switchable window: the selected
    /// index modulo the cartridge's actual bank count (wrap-around on
    /// out-of-range selections is expected hardware behavior, not an error).
    pub open spec fn spec_active_rom_bank(self) -> nat {
        if self.rom_bank_count == 0 {
            0
        } else {
            self.spec_selected_rom_bank() % self.rom_bank_count as nat
        }
    }

    /// Physical ROM offset for a logical address in 0x0000-0x7FFF: the fixed
    /// window maps identically; the switchable window maps through the active
    /// bank.
    pub open spec fn spec_translate_rom(self, addr: u16) -> nat {
        if addr < 0x4000 {
            addr as nat
        } else {
            self.spec_active_rom_bank() * ROM_BANK_SIZE as nat + (addr - 0x4000) as nat
        }
    }

    /// The external-RAM bank the registers currently select, before
    /// wrap-around: only `Mbc1` in its advanced banking mode addresses a bank
    /// other than 0.
    pub open spec fn spec_selected_ram_bank(self) -> nat {
        if self.kind == MbcKind::Mbc1 && self.state.banking_mode {
            self.state.ram_bank as nat
        } else {
            0
        }
    }

    pub open spec fn spec_active_ram_bank(self) -> nat {
        if self.ram_bank_count == 0 {
            0
        } else {
            self.spec_selected_ram_bank() % self.ram_bank_count as nat
        }
    }

    /// Physical external-RAM offset for a logical address, or nothing when
    /// the address is outside the RAM window, the RAM-enable gate is clear,
    /// or the cartridge has zero RAM banks.
    pub open spec fn spec_translate_ram(self, addr: u16) -> Option<nat> {
        if !(0xA000 <= addr && addr < 0xC000) {
            Option::None
        } else if !self.state.ram_enabled || self.ram_bank_count == 0 {
            Option::None
        } else {
            Option::Some(self.spec_active_ram_bank() * RAM_BANK_SIZE as nat + (addr - 0xA000) as nat)
        }
    }

    /// Physical ROM offset for a logical address in the two ROM windows.
    pub fn translate_rom_address(&self, addr: u16) -> (r: usize)
        requires
            self.wf(),
            addr < 0x8000,
        ensures
            r == self.spec_translate_rom(addr),
    {
        if addr < 0x4000 {
            addr as usize
        } else {
            let selected: usize = match self.kind {
                MbcKind::NoMbc => 1,
                MbcKind::Mbc1 => self.state.ram_bank as usize * 32 + self.state.rom_bank as usize,
                MbcKind::Unsupported => 0,
            };
            let bank: usize = if self.rom_bank_count == 0 {
                0
            } else {
                selected % self.rom_bank_count
            };
            bank * ROM_BANK_SIZE + (addr as usize - 0x4000)
        }
    }

    /// Physical external-RAM offset for a logical address, or `None` when the
    /// gate is clear, no RAM banks exist, or the address is outside the RAM
    /// window.
    pub fn translate_ram_address(&self, addr: u16) -> (r: Option<usize>)
        requires
            self.wf(),
        ensures
            match r {
                Option::Some(off) => self.spec_translate_ram(addr) == Option::Some(off as nat),
                Option::None => self.spec_translate_ram(addr) is None,
            },
    {
        if !(0xA000 <= addr && addr < 0xC000) {
            None
        } else if !self.state.ram_enabled || self.ram_bank_count == 0 {
            None
        } else {
            let bank: usize = if self.kind == MbcKind::Mbc1 && self.state.banking_mode {
                self.state.ram_bank as usize % self.ram_bank_count
            } else {
                0
            };
            proof {
                if self.kind == MbcKind::Mbc1 && self.state.banking_mode {
                    assert(bank as nat == self.spec_selected_ram_bank()
                        % self.ram_bank_count as nat);
                } else {
                    assert(self.spec_selected_ram_bank() == 0);
                    assert((0 as nat) % (self.ram_bank_count as nat) == 0) by (nonlinear_arith)
                        requires
                            self.ram_bank_count > 0,
                    ;
                }
                assert(bank as nat == self.spec_active_ram_bank());
            }
            Some(bank * RAM_BANK_SIZE + (addr as usize - 0xA000))
        }
    }

    /// Register effect of a write into 0x0000-0x7FFF. Only `Mbc1` has live
    /// registers; the other schemes accept and discard the write. Each
    /// register keeps only its significant bits of `value` (the remainder are
    /// hardware-ignored, not an error).
    pub open spec fn spec_register_write(self, addr: u16, value: u8) -> Mbc {
        if self.kind != MbcKind::Mbc1 || addr >= 0x8000 {
            self
        } else if addr < 0x2000 {
            Mbc { state: MbcState { ram_enabled: (value & 0x0F) == 0x0A, ..self.state }, ..self }
        } else if addr < 0x4000 {
            let low = value & 0x1F;
            Mbc { state: MbcState { rom_bank: if low == 0 { 1 } else { low }, ..self.state }, ..self }
        } else if addr < 0x6000 {
            Mbc { state: MbcState { ram_bank: value & 0x03, ..self.state }, ..self }
        } else {
            Mbc { state: MbcState { banking_mode: (value & 0x01) == 1, ..self.state }, ..self }
        }
    }

    /// The only path that mutates the banking registers: the address bus
    /// forwards every write landing in 0x0000-0x7FFF here.
    pub fn on_register_write(&mut self, addr: u16, value: u8)
        requires
            old(self).wf(),
            addr < 0x8000,
        ensures
            final(self).wf(),
            *final(self) == old(self).spec_register_write(addr, value),
    {
        proof {
            assert((value & 0x1F) <= 0x1F && (value & 0x03) <= 0x03) by (bit_vector);
        }
        if self.kind == MbcKind::Mbc1 {
            if addr < 0x2000 {
                self.state.ram_enabled = (value & 0x0F) == 0x0A;
            } else if addr < 0x4000 {
                let low = value & 0x1F;
                self.state.rom_bank = if low == 0 { 1 } else { low };
            } else if addr < 0x6000 {
                self.state.ram_bank = value & 0x03;
            } else {
                self.state.banking_mode = (value & 0x01) == 1;
            }
        }
    }

    /// Law: bank translation wraps. For any valid controller with at least
    /// one ROM bank, the switchable window resolves through the selected
    /// index modulo the actual bank count, so a selection at or beyond the
    /// bank count wraps instead of failing.
    pub proof fn lemma_rom_bank_selection_wraps(self, addr: u16)
        requires
            self.wf(),
            self.rom_bank_count > 0,
            0x4000 <= addr < 0x8000,
        ensures
            self.spec_translate_rom(addr) == (self.spec_selected_rom_bank()
                % self.rom_bank_count as nat) * ROM_BANK_SIZE as nat + (addr - 0x4000) as nat,
            self.spec_active_rom_bank() < self.rom_bank_count,
    {
    }

    /// Law: every translated ROM offset lies inside the cartridge's physical
    /// ROM span of `rom_bank_count` banks.
    pub proof fn lemma_translate_rom_in_bounds(self, addr: u16)
        requires
            self.wf(),
            self.rom_bank_count > 0,
            addr < 0x8000,
        ensures
            self.spec_translate_rom(addr) < self.rom_bank_count as nat * ROM_BANK_SIZE as nat,
    {
        let count = self.rom_bank_count as nat;
        let size = ROM_BANK_SIZE as nat;
        if addr < 0x4000 {
            assert(count * size >= 1 * size) by (nonlinear_arith)
                requires
                    count >= 1,
                    size > 0,
            ;
        } else {
            let bank = self.spec_active_rom_bank();
            let rest = (addr - 0x4000) as nat;
            assert(bank < count);
            assert(rest < size);
            assert(bank * size + rest < count * size) by (nonlinear_arith)
                requires
                    bank < count,
                    rest < size,
            ;
        }
    }

    /// Law: every translated RAM offset lies inside the cartridge's physical
    /// external-RAM span of `ram_bank_count` banks.
    pub proof fn lemma_translate_ram_in_bounds(self, addr: u16)
        requires
            self.wf(),
            self.spec_translate_ram(addr) is Some,
        ensures
            self.spec_translate_ram(addr)->Some_0 < self.ram_bank_count as nat
                * RAM_BANK_SIZE as nat,
    {
        let count = self.ram_bank_count as nat;
        let size = RAM_BANK_SIZE as nat;
        let bank = self.spec_active_ram_bank();
        let rest = (addr - 0xA000) as nat;
        assert(bank < count);
        assert(rest < size);
        assert(bank * size + rest < count * size) by (nonlinear_arith)
            requires
                bank < count,
                rest < size,
        ;
    }
}

} // verus!
