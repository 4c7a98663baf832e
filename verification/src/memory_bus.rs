use vstd::prelude::*;

use crate::cartridge::Cartridge;
use crate::cartridge::CartridgeState;
use crate::cartridge::MIN_ROM_LEN;
use crate::gpu::Gpu;
use crate::gpu::VRAM_SIZE;
use crate::gpu::zeroed;

verus! {

pub const CARTRIDGE_ROM_START: u16 = 0x0000;

pub const CARTRIDGE_ROM_END: u16 = 0x7FFF;

pub const VRAM_START: u16 = 0x8000;

pub const VRAM_END: u16 = 0x9FFF;

pub const CARTRIDGE_RAM_START: u16 = 0xA000;

pub const CARTRIDGE_RAM_END: u16 = 0xBFFF;

pub const WRAM_START: u16 = 0xC000;

pub const WRAM_END: u16 = 0xDFFF;

/// Size in bytes of the work RAM store.
pub const WRAM_SIZE: usize = 0x2000;

/// The abstract bus state: the cartridge, the video RAM bytes and the work
/// RAM bytes it routes to.
#[verifier::ext_equal]
pub struct BusState {
    pub cartridge: CartridgeState,
    pub vram: Seq<u8>,
    pub wram: Seq<u8>,
}

impl BusState {
    /// The two byte stores always span their whole windows.
    pub open spec fn wf(self) -> bool {
        self.vram.len() == VRAM_SIZE && self.wram.len() == WRAM_SIZE
    }

    /// The byte a bus read returns. Each wired address range routes to
    /// exactly one backing store; a read outside every wired range answers
    /// 0x00, the deliberate choice for the unwired remainder of the address
    /// space.
    pub open spec fn spec_read(self, address: u16) -> u8 {
        if address <= CARTRIDGE_ROM_END {
            self.cartridge.spec_read_rom(address)
        } else if address <= VRAM_END {
            self.vram[address - VRAM_START]
        } else if address <= CARTRIDGE_RAM_END {
            self.cartridge.spec_read_ram(address)
        } else if address <= WRAM_END {
            self.wram[address - WRAM_START]
        } else {
            0x00
        }
    }

    /// The bus state after a write. Each wired range routes to exactly one
    /// backing store; a write outside every wired range changes nothing.
    pub open spec fn spec_write(self, address: u16, value: u8) -> BusState {
        if address <= CARTRIDGE_ROM_END {
            BusState { cartridge: self.cartridge.spec_write_rom(address, value), ..self }
        } else if address <= VRAM_END {
            BusState { vram: self.vram.update(address - VRAM_START, value), ..self }
        } else if address <= CARTRIDGE_RAM_END {
            BusState { cartridge: self.cartridge.spec_write_ram(address, value), ..self }
        } else if address <= WRAM_END {
            BusState { wram: self.wram.update(address - WRAM_START, value), ..self }
        } else {
            self
        }
    }
}

/// The address-range router: delegates every access to the store that owns
/// the address, with no caching and no state of its own beyond the stores.
pub struct MemoryBus {
    pub cartridge: Cartridge,
    pub gpu: Gpu,
    pub wram: Vec<u8>,
}

impl View for MemoryBus {
    type V = BusState;

    open spec fn view(&self) -> BusState {
        BusState { cartridge: self.cartridge@, vram: self.gpu@, wram: self.wram@ }
    }
}

impl MemoryBus {
    pub open spec fn wf(self) -> bool {
        self.cartridge.wf() && self@.wf()
    }

    pub fn new(rom_data: Vec<u8>) -> (r: MemoryBus)
        requires
            rom_data@.len() >= MIN_ROM_LEN,
        ensures
            r.wf(),
            r@ == (BusState {
                cartridge: Cartridge::spec_build(rom_data@),
                vram: Seq::new(VRAM_SIZE as nat, |i: int| 0u8),
                wram: Seq::new(WRAM_SIZE as nat, |i: int| 0u8),
            }),
    {
        let cartridge = Cartridge::build(rom_data);
        MemoryBus { cartridge, gpu: Gpu::new(), wram: zeroed(WRAM_SIZE) }
    }

    /// Routes a read to the store that owns the address.
    pub fn read_byte(&self, address: u16) -> (r: u8)
        requires
            self.wf(),
        ensures
            r == self@.spec_read(address),
    {
        if address <= CARTRIDGE_ROM_END {
            self.cartridge.read(address)
        } else if address <= VRAM_END {
            self.gpu.read_byte(address - VRAM_START)
        } else if address <= CARTRIDGE_RAM_END {
            self.cartridge.read_ram(address)
        } else if address <= WRAM_END {
            self.wram[(address - WRAM_START) as usize]
        } else {
            0x00
        }
    }

    /// Routes a write to the store that owns the address.
    pub fn write_byte(&mut self, address: u16, value: u8)
        requires
            old(self).wf(),
        ensures
            final(self).wf(),
            final(self)@ == old(self)@.spec_write(address, value),
    {
        if address <= CARTRIDGE_ROM_END {
            self.cartridge.write(address, value);
        } else if address <= VRAM_END {
            self.gpu.write_byte(address - VRAM_START, value);
        } else if address <= CARTRIDGE_RAM_END {
            self.cartridge.write_ram(address, value);
        } else if address <= WRAM_END {
            self.wram.set((address - WRAM_START) as usize, value);
        }
    }
}

} // verus!
