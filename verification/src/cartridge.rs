use vstd::prelude::*;

use crate::gpu::zeroed;

verus! {

/// Size in bytes of one switchable ROM bank (the bank window stride).
pub const ROM_BANK_SIZE: usize = 0x4000;

/// Size in bytes of one switchable cartridge RAM bank.
pub const RAM_BANK_SIZE: usize = 0x2000;

/// First CPU address of the cartridge RAM window.
pub const RAM_ADDRESS: usize = 0xA000;

/// Header byte that selects the cartridge RAM size.
pub const RAM_SIZE_ADDRESS: usize = 0x0149;

/// The shortest ROM image the core accepts: it must reach past the header.
pub const MIN_ROM_LEN: usize = 0x014E;

/// The abstract cartridge state the contracts speak of: the ROM bytes, the
/// optional banked RAM bytes, and the three bank-control registers.
#[verifier::ext_equal]
pub struct CartridgeState {
    pub rom: Seq<u8>,
    pub ram: Option<Seq<u8>>,
    pub ram_enabled: bool,
    pub rom_bank: u8,
    pub ram_bank: u8,
}

impl CartridgeState {
    /// The index into the ROM image a read of the given CPU address reaches:
    /// the first bank window maps the start of the image verbatim, the
    /// second maps through the selected bank.
    pub open spec fn rom_index(self, address: u16) -> int {
        if address < ROM_BANK_SIZE {
            address as int
        } else {
            ROM_BANK_SIZE * self.rom_bank + (address - ROM_BANK_SIZE)
        }
    }

    /// The byte a ROM read returns: the mapped image byte, or the open-bus
    /// sentinel 0xFF where the mapped index lies outside the image.
    pub open spec fn spec_read_rom(self, address: u16) -> u8 {
        if self.rom_index(address) < self.rom.len() {
            self.rom[self.rom_index(address)]
        } else {
            0xFF
        }
    }

    /// The state after a control-register write into the ROM window: the
    /// low range gates RAM on the written byte's low nibble being 0x0A, the
    /// next range selects the ROM bank (0 is coerced to 1, masked to 7
    /// bits), the next selects the RAM bank (masked to its valid range),
    /// and the rest of the window ignores writes.
    pub open spec fn spec_write_rom(self, address: u16, value: u8) -> CartridgeState {
        if address < 0x2000 {
            CartridgeState { ram_enabled: value & 0x0F == 0x0A, ..self }
        } else if address < 0x4000 {
            let bank_number = if value == 0 { 1u8 } else { value };
            CartridgeState { rom_bank: (self.rom_bank & 0x60) | (bank_number & 0x7F), ..self }
        } else if address < 0x6000 {
            CartridgeState { ram_bank: value & 0x03, ..self }
        } else {
            self
        }
    }

    /// The index into the RAM bytes a cartridge RAM access reaches.
    pub open spec fn ram_index(self, address: u16) -> int {
        RAM_BANK_SIZE * self.ram_bank + (address - RAM_ADDRESS)
    }

    /// The byte a cartridge RAM read returns: the sentinel 0xFF whenever RAM
    /// is disabled, absent, or the mapped index lies outside it.
    pub open spec fn spec_read_ram(self, address: u16) -> u8 {
        if !self.ram_enabled {
            0xFF
        } else {
            match self.ram {
                Option::Some(ram) => {
                    if self.ram_index(address) < ram.len() {
                        ram[self.ram_index(address)]
                    } else {
                        0xFF
                    }
                },
                Option::None => 0xFF,
            }
        }
    }

    /// The state after a cartridge RAM write: a no-op whenever RAM is
    /// disabled, absent, or the mapped index lies outside it.
    pub open spec fn spec_write_ram(self, address: u16, value: u8) -> CartridgeState {
        if !self.ram_enabled {
            self
        } else {
            match self.ram {
                Option::Some(ram) => {
                    if self.ram_index(address) < ram.len() {
                        CartridgeState { ram: Option::Some(ram.update(self.ram_index(address), value)), ..self }
                    } else {
                        self
                    }
                },
                Option::None => self,
            }
        }
    }
}

/// The mutable cartridge data the bank controller operates on.
pub struct Core {
    pub rom_data: Vec<u8>,
    pub ram_data: Option<Vec<u8>>,
    pub ram_enabled: bool,
    pub rom_bank: u8,
    pub ram_bank: u8,
    pub rom_offset: usize,
    pub ram_offset: usize,
}

impl View for Core {
    type V = CartridgeState;

    open spec fn view(&self) -> CartridgeState {
        CartridgeState {
            rom: self.rom_data@,
            ram: match self.ram_data {
                Option::Some(ram) => Option::Some(ram@),
                Option::None => Option::None,
            },
            ram_enabled: self.ram_enabled,
            rom_bank: self.rom_bank,
            ram_bank: self.ram_bank,
        }
    }
}

impl Core {
    /// The bank-window strides this controller was built with.
    pub open spec fn wf(self) -> bool {
        self.rom_offset == ROM_BANK_SIZE && self.ram_offset == RAM_BANK_SIZE
    }
}

/// The illustrated memory-bank-controller scheme. It holds no state of its
/// own; all cartridge state lives in the `Core` it operates on.
pub struct Mbc3 {}

impl Mbc3 {
    pub fn new() -> (r: Mbc3) {
        Mbc3 {}
    }

    /// Reads one byte from the ROM window through the current bank mapping.
    pub fn read_rom(&self, core: &Core, address: u16) -> (r: u8)
        requires
            core.wf(),
            address < 0x8000,
        ensures
            r == core@.spec_read_rom(address),
    {
        if address < 0x4000 {
            // Bank 00: the start of the image, mapped verbatim
            let index = address as usize;
            if index < core.rom_data.len() {
                core.rom_data[index]
            } else {
                0xFF
            }
        } else {
            // Bank 01-7F: mapped through the selected bank
            let offset = core.rom_offset * (core.rom_bank as usize);
            let index = (address as usize - core.rom_offset) + offset;
            if index < core.rom_data.len() {
                core.rom_data[index]
            } else {
                0xFF
            }
        }
    }

    /// A write into the ROM window only reaches the bank-control registers.
    pub fn write_rom(&mut self, core: &mut Core, address: u16, value: u8)
        requires
            old(core).wf(),
            address < 0x8000,
        ensures
            final(core).wf(),
            final(core)@ == old(core)@.spec_write_rom(address, value),
    {
        if address < 0x2000 {
            // RAM enable: triggered by a low nibble of 0x0A
            core.ram_enabled = (value & 0x0F) == 0x0A;
        } else if address < 0x4000 {
            // ROM bank number: 0 aliases to 1, masked to the controller's width
            let bank_number = if value == 0 { 1u8 } else { value };
            core.rom_bank = (core.rom_bank & 0x60) | (bank_number & 0x7F);
        } else if address < 0x6000 {
            // RAM bank number, masked to its valid range
            core.ram_bank = value & 0x03;
        }
    }

    /// Writes one byte of cartridge RAM; a silent no-op while RAM is
    /// disabled or absent.
    pub fn write_ram(&mut self, core: &mut Core, address: u16, value: u8)
        requires
            old(core).wf(),
            0xA000 <= address < 0xC000,
        ensures
            final(core).wf(),
            final(core)@ == old(core)@.spec_write_ram(address, value),
    {
        if !core.ram_enabled {
            return;
        }

        let offset = core.ram_offset * (core.ram_bank as usize);
        let index = (address as usize - RAM_ADDRESS) + offset;
        if let Option::Some(ram_data) = &mut core.ram_data {
            if index < ram_data.len() {
                ram_data.set(index, value);
            }
        }
    }

    /// Reads one byte of cartridge RAM; the sentinel 0xFF while RAM is
    /// disabled or absent.
    pub fn read_ram(&self, core: &Core, address: u16) -> (r: u8)
        requires
            core.wf(),
            0xA000 <= address < 0xC000,
        ensures
            r == core@.spec_read_ram(address),
    {
        if !core.ram_enabled {
            return 0xFF;
        }

        if let Option::Some(ram_data) = &core.ram_data {
            let offset = core.ram_offset * (core.ram_bank as usize);
            let index = (address as usize - RAM_ADDRESS) + offset;
            if index < ram_data.len() {
                return ram_data[index];
            }
            return 0xFF;
        }

        0xFF
    }
}

/// A cartridge: its data core together with the bank controller that maps
/// every access.
pub struct Cartridge {
    pub core: Core,
    pub mbc: Mbc3,
}

impl View for Cartridge {
    type V = CartridgeState;

    open spec fn view(&self) -> CartridgeState {
        self.core@
    }
}

impl Cartridge {
    pub open spec fn wf(self) -> bool {
        self.core.wf()
    }

    /// The state a freshly built cartridge is in: the image as its ROM,
    /// zero-filled RAM of the size the header selects, ROM bank 1, RAM bank
    /// 0, RAM disabled.
    pub open spec fn spec_build(rom: Seq<u8>) -> CartridgeState
        recommends
            rom.len() >= MIN_ROM_LEN,
    {
        CartridgeState {
            rom,
            ram: if rom[RAM_SIZE_ADDRESS as int] == 0x02 {
                Option::Some(Seq::new(RAM_BANK_SIZE as nat, |i: int| 0u8))
            } else if rom[RAM_SIZE_ADDRESS as int] == 0x03 {
                Option::Some(Seq::new((4 * RAM_BANK_SIZE) as nat, |i: int| 0u8))
            } else {
                Option::None
            },
            ram_enabled: false,
            rom_bank: 1,
            ram_bank: 0,
        }
    }

    /// Builds a cartridge around a raw ROM image. The header byte at 0x0149
    /// selects the banked RAM size: one bank, four banks, or none. Bank
    /// registers start at ROM bank 1, RAM bank 0, RAM disabled.
    pub fn build(rom_data: Vec<u8>) -> (r: Cartridge)
        requires
            rom_data@.len() >= MIN_ROM_LEN,
        ensures
            r.wf(),
            r@ == Cartridge::spec_build(rom_data@),
    {
        let ram_size_code = rom_data[RAM_SIZE_ADDRESS];
        let ram_data: Option<Vec<u8>> = if ram_size_code == 0x02 {
            Option::Some(zeroed(RAM_BANK_SIZE))
        } else if ram_size_code == 0x03 {
            Option::Some(zeroed(4 * RAM_BANK_SIZE))
        } else {
            Option::None
        };
        Cartridge {
            core: Core {
                rom_data,
                ram_data,
                ram_enabled: false,
                rom_bank: 1,
                ram_bank: 0,
                rom_offset: ROM_BANK_SIZE,
                ram_offset: RAM_BANK_SIZE,
            },
            mbc: Mbc3::new(),
        }
    }

    /// Reads one byte from the ROM window.
    pub fn read(&self, address: u16) -> (r: u8)
        requires
            self.wf(),
            address < 0x8000,
        ensures
            r == self@.spec_read_rom(address),
    {
        self.mbc.read_rom(&self.core, address)
    }

    /// Routes a write in the ROM window to the bank-control registers.
    pub fn write(&mut self, address: u16, value: u8)
        requires
            old(self).wf(),
            address < 0x8000,
        ensures
            final(self).wf(),
            final(self)@ == old(self)@.spec_write_rom(address, value),
    {
        self.mbc.write_rom(&mut self.core, address, value);
    }

    /// Reads one byte from the cartridge RAM window.
    pub fn read_ram(&self, address: u16) -> (r: u8)
        requires
            self.wf(),
            0xA000 <= address < 0xC000,
        ensures
            r == self@.spec_read_ram(address),
    {
        self.mbc.read_ram(&self.core, address)
    }

    /// Writes one byte into the cartridge RAM window.
    pub fn write_ram(&mut self, address: u16, value: u8)
        requires
            old(self).wf(),
            0xA000 <= address < 0xC000,
        ensures
            final(self).wf(),
            final(self)@ == old(self)@.spec_write_ram(address, value),
    {
        self.mbc.write_ram(&mut self.core, address, value);
    }
}

/// Law: bank aliasing. Writing 0x00 to the ROM-bank-select register leaves
/// the cartridge in exactly the state that writing 0x01 does, so every
/// later read of a bank-dependent address behaves identically.
pub proof fn lemma_rom_bank_zero_aliases_one(c: CartridgeState, address: u16)
    requires
        0x2000 <= address < 0x4000,
    ensures
        c.spec_write_rom(address, 0x00) == c.spec_write_rom(address, 0x01),
{
}

/// Law: a RAM-enable write whose low nibble is not 0x0A disables RAM, so
/// every later cartridge RAM read returns the sentinel 0xFF regardless of
/// the underlying contents.
pub proof fn lemma_ram_disabled_reads_sentinel(c: CartridgeState, enable_value: u8, enable_address: u16, address: u16)
    requires
        enable_address < 0x2000,
        enable_value & 0x0F != 0x0A,
        0xA000 <= address < 0xC000,
    ensures
        c.spec_write_rom(enable_address, enable_value).spec_read_ram(address) == 0xFF,
{
}

} // verus!
