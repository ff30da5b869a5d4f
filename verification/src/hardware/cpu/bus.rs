use vstd::prelude::*;
use crate::hardware::cpu::{NotImplemented, CPU};

verus! {

/// The regions of the 16-bit address space.
#[derive(Debug, Clone, Copy, PartialEq, Eq, Structural)]
pub enum Region {
    /// 0x0000 to 0x3FFF: the fixed bank of the cartridge image.
    FixedRom,
    /// 0x4000 to 0x7FFF: the switchable bank of the cartridge image.
    SwitchableRom,
    /// 0x8000 to 0x9FFF.
    VideoRam,
    /// 0xA000 to 0xBFFF: the RAM on the cartridge.
    ExternalRam,
    /// 0xC000 to 0xDFFF.
    WorkRam,
    /// 0xE000 to 0xFDFF: a mirror of the work RAM.
    Mirror,
    /// 0xFE00 to 0xFE9F: the sprite attribute table.
    SpriteTable,
    /// 0xFEA0 to 0xFEFF: no device answers here.
    Unusable,
    /// 0xFF00 to 0xFF7F: the I/O registers.
    Io,
    /// 0xFF80 to 0xFFFE.
    HighRam,
    /// 0xFFFF: the interrupt-enable register.
    InterruptEnable,
}

impl Region {
    /// The first address of the region.
    pub open spec fn first(self) -> u16 {
        match self {
            Region::FixedRom => 0x0000,
            Region::SwitchableRom => 0x4000,
            Region::VideoRam => 0x8000,
            Region::ExternalRam => 0xA000,
            Region::WorkRam => 0xC000,
            Region::Mirror => 0xE000,
            Region::SpriteTable => 0xFE00,
            Region::Unusable => 0xFEA0,
            Region::Io => 0xFF00,
            Region::HighRam => 0xFF80,
            Region::InterruptEnable => 0xFFFF,
        }
    }

    /// The last address of the region.
    pub open spec fn last(self) -> u16 {
        match self {
            Region::FixedRom => 0x3FFF,
            Region::SwitchableRom => 0x7FFF,
            Region::VideoRam => 0x9FFF,
            Region::ExternalRam => 0xBFFF,
            Region::WorkRam => 0xDFFF,
            Region::Mirror => 0xFDFF,
            Region::SpriteTable => 0xFE9F,
            Region::Unusable => 0xFEFF,
            Region::Io => 0xFF7F,
            Region::HighRam => 0xFFFE,
            Region::InterruptEnable => 0xFFFF,
        }
    }

    /// Whether `address` lies in the region.
    pub open spec fn holds(self, address: u16) -> bool {
        self.first() <= address <= self.last()
    }

    /// The region that `address` lies in. Each address lies in exactly one.
    pub fn of(address: u16) -> (region: Region)
        ensures
            region.holds(address),
            forall|other: Region| other.holds(address) ==> other == region,
    {
        if address <= 0x3FFF {
            Region::FixedRom
        } else if address <= 0x7FFF {
            Region::SwitchableRom
        } else if address <= 0x9FFF {
            Region::VideoRam
        } else if address <= 0xBFFF {
            Region::ExternalRam
        } else if address <= 0xDFFF {
            Region::WorkRam
        } else if address <= 0xFDFF {
            Region::Mirror
        } else if address <= 0xFE9F {
            Region::SpriteTable
        } else if address <= 0xFEFF {
            Region::Unusable
        } else if address <= 0xFF7F {
            Region::Io
        } else if address <= 0xFFFE {
            Region::HighRam
        } else {
            Region::InterruptEnable
        }
    }
}

/// What a read at `address` gives on a bus whose cartridge holds the image
/// `rom`: the image's byte, where the address lies in the fixed bank and
/// within the image; elsewhere no storage answers.
pub open spec fn read_at(rom: Seq<u8>, address: u16) -> Result<u8, NotImplemented> {
    if Region::FixedRom.holds(address) && address < rom.len() {
        Ok(rom[address as int])
    } else {
        Err(NotImplemented::BusRead { address })
    }
}

/// What a write at `address` gives: the fixed bank takes it, and ignores it;
/// elsewhere no storage answers.
pub open spec fn write_at(address: u16) -> Result<(), NotImplemented> {
    if Region::FixedRom.holds(address) {
        Ok(())
    } else {
        Err(NotImplemented::BusWrite { address })
    }
}

impl CPU {
    /// Reads the byte at `address`. The fixed bank routes to the cartridge
    /// image; a read that no storage answers is reported and gives no byte.
    pub fn bus_read(&self, address: u16) -> (byte: Result<u8, NotImplemented>)
        ensures
            byte == read_at(self.cartridge.rom@, address),
    {
        match Region::of(address) {
            Region::FixedRom => match self.cartridge.read(address) {
                Some(value) => Ok(value),
                None => Err(NotImplemented::BusRead { address }),
            },
            _ => Err(NotImplemented::BusRead { address }),
        }
    }

    /// Writes `value` at `address`. The fixed bank routes to the cartridge,
    /// which ignores the write; a write that no storage answers is reported.
    /// Either way nothing changes.
    pub fn bus_write(&mut self, address: u16, value: u8) -> (written: Result<(), NotImplemented>)
        ensures
            written == write_at(address),
            *final(self) == *old(self),
    {
        match Region::of(address) {
            Region::FixedRom => {
                self.cartridge.write(address, value);
                Ok(())
            },
            _ => Err(NotImplemented::BusWrite { address }),
        }
    }
}

} // verus!
