use vstd::prelude::*;
use super::cartridge::spec_bank_geometry;
use super::cartridge::spec_cartridge_type;
use super::cartridge::spec_rom_byte;
use super::cartridge::Cartridge;
use super::cartridge_definitions::CartridgeType;
use super::cartridge_definitions::HEADER_CARTRIDGE_TYPE;
use super::mbc::Mbc;
use super::mbc::RAM_BANK_SIZE;

verus! {

/// The mathematical state of the bus: the ROM image, the controller
/// registers, and the contents of every owned buffer.
#[verifier::ext_equal]
pub struct BusModel {
    pub rom: Seq<u8>,
    pub mbc: Mbc,
    pub vram: Seq<u8>,
    pub eram: Seq<u8>,
    pub wram: Seq<u8>,
    pub oam: Seq<u8>,
    pub io_registers: Seq<u8>,
    pub hram: Seq<u8>,
    pub interrupt_enable: u8,
}

impl BusModel {
    /// Validity: a well-formed controller and every buffer at its fixed
    /// hardware size, external RAM covering exactly the controller's banks.
    pub open spec fn inv(self) -> bool {
        &&& self.mbc.wf()
        &&& self.vram.len() == 0x2000
        &&& self.eram.len() == self.mbc.ram_bank_count * RAM_BANK_SIZE
        &&& self.wram.len() == 0x2000
        &&& self.oam.len() == 0xA0
        &&& self.io_registers.len() == 0x80
        &&& self.hram.len() == 0x7F
    }

    /// What a read returns, for every address of the 16-bit space: the
    /// ordered device ranges partition 0x0000-0xFFFF with no gaps, so every
    /// address yields a defined value. Reads from the unusable range and from
    /// gated or absent external RAM yield the open-bus value 0xFF.
    pub open spec fn spec_read(self, addr: u16) -> u8 {
        if addr < 0x8000 {
            spec_rom_byte(self.rom, self.mbc.spec_translate_rom(addr) as int)
        } else if addr < 0xA000 {
            self.vram[addr - 0x8000]
        } else if addr < 0xC000 {
            match self.mbc.spec_translate_ram(addr) {
                Option::Some(off) => self.eram[off as int],
                Option::None => 0xFF,
            }
        } else if addr < 0xE000 {
            self.wram[addr - 0xC000]
        } else if addr < 0xFE00 {
            self.wram[addr - 0xE000]
        } else if addr < 0xFEA0 {
            self.oam[addr - 0xFE00]
        } else if addr < 0xFF00 {
            0xFF
        } else if addr < 0xFF80 {
            self.io_registers[addr - 0xFF00]
        } else if addr < 0xFFFF {
            self.hram[addr - 0xFF80]
        } else {
            self.interrupt_enable
        }
    }

    /// What a write does, for every address of the 16-bit space. Writes into
    /// the ROM windows reach only the controller's registers (ROM itself is
    /// read-only); writes into the unusable range and into gated or absent
    /// external RAM are accepted and discarded, as the hardware does.
    pub open spec fn spec_write(self, addr: u16, value: u8) -> BusModel {
        if addr < 0x8000 {
            BusModel { mbc: self.mbc.spec_register_write(addr, value), ..self }
        } else if addr < 0xA000 {
            BusModel { vram: self.vram.update(addr - 0x8000, value), ..self }
        } else if addr < 0xC000 {
            match self.mbc.spec_translate_ram(addr) {
                Option::Some(off) => BusModel { eram: self.eram.update(off as int, value), ..self },
                Option::None => self,
            }
        } else if addr < 0xE000 {
            BusModel { wram: self.wram.update(addr - 0xC000, value), ..self }
        } else if addr < 0xFE00 {
            BusModel { wram: self.wram.update(addr - 0xE000, value), ..self }
        } else if addr < 0xFEA0 {
            BusModel { oam: self.oam.update(addr - 0xFE00, value), ..self }
        } else if addr < 0xFF00 {
            self
        } else if addr < 0xFF80 {
            BusModel { io_registers: self.io_registers.update(addr - 0xFF00, value), ..self }
        } else if addr < 0xFFFF {
            BusModel { hram: self.hram.update(addr - 0xFF80, value), ..self }
        } else {
            BusModel { interrupt_enable: value, ..self }
        }
    }
}

/// A write preserves validity.
pub proof fn lemma_write_preserves_inv(m: BusModel, addr: u16, value: u8)
    requires
        m.inv(),
    ensures
        m.spec_write(addr, value).inv(),
{
    if addr < 0x8000 {
        assert((value & 0x1F) <= 0x1F && (value & 0x03) <= 0x03) by (bit_vector);
    } else if 0xA000 <= addr && addr < 0xC000 {
        if m.mbc.spec_translate_ram(addr) is Some {
            m.mbc.lemma_translate_ram_in_bounds(addr);
        }
    }
}

/// Law: round trip through RAM. Writing a value to an external-RAM address
/// with the RAM-enable gate set and at least one RAM bank present, then
/// reading the same address, returns the written value.
pub proof fn lemma_ram_round_trip(m: BusModel, addr: u16, value: u8)
    requires
        m.inv(),
        0xA000 <= addr < 0xC000,
        m.mbc.state.ram_enabled,
        m.mbc.ram_bank_count > 0,
    ensures
        m.spec_write(addr, value).spec_read(addr) == value,
{
    m.mbc.lemma_translate_ram_in_bounds(addr);
}

/// Law: round trip through working and high RAM. Writing then reading the
/// same working-RAM, echo, video-RAM or high-RAM address returns the written
/// value.
pub proof fn lemma_internal_ram_round_trip(m: BusModel, addr: u16, value: u8)
    requires
        m.inv(),
        (0x8000 <= addr < 0xA000) || (0xC000 <= addr < 0xFE00) || (0xFF80 <= addr < 0xFFFF),
    ensures
        m.spec_write(addr, value).spec_read(addr) == value,
{
}

/// Law: with the RAM-enable gate clear, a write into the external-RAM window
/// changes nothing at all about the bus.
pub proof fn lemma_gated_write_discarded(m: BusModel, addr: u16, value: u8)
    requires
        m.inv(),
        0xA000 <= addr < 0xC000,
        !m.mbc.state.ram_enabled,
    ensures
        m.spec_write(addr, value) == m,
{
}

/// Law: a write into the external-RAM window while RAM is disabled has no
/// observable effect on any later read of that address after a register
/// write turns RAM access back on: the read returns exactly what it would
/// have returned without the voided write, and the stored RAM
/// contents are untouched.
pub proof fn lemma_gated_write_invisible_after_reenable(
    m: BusModel,
    addr: u16,
    value: u8,
    gate_addr: u16,
    gate_value: u8,
)
    requires
        m.inv(),
        0xA000 <= addr < 0xC000,
        !m.mbc.state.ram_enabled,
        gate_addr < 0x2000,
    ensures
        m.spec_write(addr, value).spec_write(gate_addr, gate_value).spec_read(addr) == m.spec_write(
            gate_addr,
            gate_value,
        ).spec_read(addr),
        m.spec_write(addr, value).spec_write(gate_addr, gate_value).eram == m.eram,
{
}

fn zero_vec(n: usize) -> (v: Vec<u8>)
    ensures
        v@ == Seq::new(n as nat, |i: int| 0u8),
{
    let mut v: Vec<u8> = Vec::new();
    while v.len() < n
        invariant
            v@ =~= Seq::new(v@.len(), |i: int| 0u8),
            v@.len() <= n,
        decreases n - v@.len(),
    {
        v.push(0);
    }
    proof {
        assert(v@ =~= Seq::new(n as nat, |i: int| 0u8));
    }
    v
}

/// The single entry point for all 16-bit memory access. Owns the cartridge,
/// the banking controller derived from its header, and the machine's RAM,
/// video-RAM and register buffers.
#[derive(Debug)]
pub struct AddressBus {
    pub cartridge: Cartridge,
    pub mbc: Mbc,
    pub vram: Vec<u8>,
    pub eram: Vec<u8>,
    pub wram: Vec<u8>,
    pub oam: Vec<u8>,
    pub io_registers: Vec<u8>,
    pub hram: Vec<u8>,
    pub interrupt_enable: u8,
}

impl View for AddressBus {
    type V = BusModel;

    open spec fn view(&self) -> BusModel {
        BusModel {
            rom: self.cartridge.rom@,
            mbc: self.mbc,
            vram: self.vram@,
            eram: self.eram@,
            wram: self.wram@,
            oam: self.oam@,
            io_registers: self.io_registers@,
            hram: self.hram@,
            interrupt_enable: self.interrupt_enable,
        }
    }
}

impl AddressBus {
    pub open spec fn wf(self) -> bool {
        self@.inv()
    }

    /// Builds the bus around a loaded cartridge: the controller is chosen
    /// from the decoded banking type with the cartridge's bank geometry, and
    /// every owned buffer starts zeroed.
    pub fn new(cartridge: Cartridge) -> (r: AddressBus)
        ensures
            r.wf(),
            r@.rom == cartridge.rom@,
            r@.mbc.kind == Mbc::spec_kind_of_type(spec_cartridge_type(cartridge.rom@)),
            r@.mbc.state == Mbc::spec_initial_state(),
            r@.mbc.rom_bank_count == spec_bank_geometry(cartridge.rom@).rom_bank_count,
            r@.mbc.ram_bank_count == spec_bank_geometry(cartridge.rom@).ram_bank_count,
            r@.vram == Seq::new(0x2000, |i: int| 0u8),
            r@.eram == Seq::new((r@.mbc.ram_bank_count * RAM_BANK_SIZE) as nat, |i: int| 0u8),
            r@.wram == Seq::new(0x2000, |i: int| 0u8),
            r@.oam == Seq::new(0xA0, |i: int| 0u8),
            r@.io_registers == Seq::new(0x80, |i: int| 0u8),
            r@.hram == Seq::new(0x7F, |i: int| 0u8),
            r@.interrupt_enable == 0,
    {
        let cartridge_type = if cartridge.rom.len() > HEADER_CARTRIDGE_TYPE {
            CartridgeType::from_byte(&cartridge.rom[HEADER_CARTRIDGE_TYPE])
        } else {
            CartridgeType::Unknown
        };
        let geometry = cartridge.bank_geometry();
        proof {
            super::cartridge::spec_rom_size_code(cartridge.rom@).lemma_rom_bank_count_bound();
            super::cartridge::spec_ram_size_code(cartridge.rom@).lemma_ram_bank_count_bound();
        }
        let mbc = Mbc::new(cartridge_type, geometry.rom_bank_count, geometry.ram_bank_count);
        let eram = zero_vec(geometry.ram_bank_count * RAM_BANK_SIZE);
        AddressBus {
            cartridge,
            mbc,
            vram: zero_vec(0x2000),
            eram,
            wram: zero_vec(0x2000),
            oam: zero_vec(0xA0),
            io_registers: zero_vec(0x80),
            hram: zero_vec(0x7F),
            interrupt_enable: 0,
        }
    }

    /// Reads the byte at any address of the 16-bit space. Total: every
    /// address yields a defined value, with no unhandled case.
    pub fn read(&self, address: u16) -> (r: u8)
        requires
            self.wf(),
        ensures
            r == self@.spec_read(address),
    {
        if address < 0x8000 {
            let off = self.mbc.translate_rom_address(address);
            self.cartridge.read_rom_byte(off)
        } else if address < 0xA000 {
            self.vram[(address - 0x8000) as usize]
        } else if address < 0xC000 {
            match self.mbc.translate_ram_address(address) {
                Some(off) => {
                    proof {
                        self.mbc.lemma_translate_ram_in_bounds(address);
                    }
                    self.eram[off]
                },
                None => 0xFF,
            }
        } else if address < 0xE000 {
            self.wram[(address - 0xC000) as usize]
        } else if address < 0xFE00 {
            self.wram[(address - 0xE000) as usize]
        } else if address < 0xFEA0 {
            self.oam[(address - 0xFE00) as usize]
        } else if address < 0xFF00 {
            0xFF
        } else if address < 0xFF80 {
            self.io_registers[(address - 0xFF00) as usize]
        } else if address < 0xFFFF {
            self.hram[(address - 0xFF80) as usize]
        } else {
            self.interrupt_enable
        }
    }

    /// Writes the byte at any address of the 16-bit space. Total: every
    /// address is handled; read-only and gated destinations accept and
    /// discard the write as the hardware does.
    pub fn write(&mut self, address: u16, data: u8)
        requires
            old(self).wf(),
        ensures
            final(self).wf(),
            final(self)@ == old(self)@.spec_write(address, data),
    {
        proof {
            lemma_write_preserves_inv(self@, address, data);
        }
        if address < 0x8000 {
            self.mbc.on_register_write(address, data);
        } else if address < 0xA000 {
            self.vram[(address - 0x8000) as usize] = data;
        } else if address < 0xC000 {
            match self.mbc.translate_ram_address(address) {
                Some(off) => {
                    proof {
                        self.mbc.lemma_translate_ram_in_bounds(address);
                    }
                    self.eram[off] = data;
                },
                None => {},
            }
        } else if address < 0xE000 {
            self.wram[(address - 0xC000) as usize] = data;
        } else if address < 0xFE00 {
            self.wram[(address - 0xE000) as usize] = data;
        } else if address < 0xFEA0 {
            self.oam[(address - 0xFE00) as usize] = data;
        } else if address < 0xFF00 {
        } else if address < 0xFF80 {
            self.io_registers[(address - 0xFF00) as usize] = data;
        } else if address < 0xFFFF {
            self.hram[(address - 0xFF80) as usize] = data;
        } else {
            self.interrupt_enable = data;
        }
        proof {
            assert(self@ =~= old(self)@.spec_write(address, data));
        }
    }
}

} // verus!
