//! Cartridge mappers: the address translation a cartridge board performs
//! between the console's buses and its own memories. The NROM board is the
//! reference implementation.

use vstd::prelude::*;

verus! {

/// What a mapper did with an address: `Read` maps it into ROM at the offset
/// handed back, `ReadRam` answers from board RAM with the byte itself,
/// `Write` absorbed the write into board RAM, `Vram` defers to console
/// memory, and `Unreadable` leaves the access to the rest of the bus.
#[derive(Clone, Copy, PartialEq, Eq, Structural, Debug)]
pub enum MapperStatus {
    Read,
    ReadRam(u8),
    Write,
    Vram,
    Unreadable,
}

/// The four operations a mapper offers: address translation for reads and
/// writes on each of the two buses. New boards implement this trait.
pub trait Mapper {
    fn cpu_map_read(&self, address: usize, mapped_address: &mut usize) -> MapperStatus;

    fn cpu_map_write(&mut self, address: usize, mapped_address: &mut usize, value: u8)
        -> MapperStatus;

    fn ppu_map_read(&self, address: usize, mapped_address: &mut usize) -> MapperStatus;

    fn ppu_map_write(&mut self, address: usize, mapped_address: &mut usize, value: u8)
        -> MapperStatus;
}

/// The NROM board: program ROM fixed at 0x8000..=0xFFFF, mirrored when only
/// one 16 KiB bank is present; 8 KiB of program RAM at 0x6000..=0x7FFF;
/// pattern data mapped straight through on the picture bus.
pub struct NROM {
    /// How many 16 KiB program banks the cartridge holds.
    pub prg_banks: u8,
    /// The 8 KiB of program RAM on the board.
    pub vram: Vec<u8>,
}

impl NROM {
    /// Whether the board RAM has its full 8 KiB.
    pub open spec fn wf(&self) -> bool {
        self.vram@.len() == 0x2000
    }

    /// A board with the given number of program banks and zeroed RAM.
    pub fn new(prg_banks: u8) -> (r: NROM)
        ensures
            r.prg_banks == prg_banks,
            r.wf(),
            forall|i: int| 0 <= i < 0x2000 ==> r.vram@[i] == 0,
    {
        let mut vram: Vec<u8> = Vec::new();
        let mut i: usize = 0;
        while i < 0x2000
            invariant
                i <= 0x2000,
                vram@.len() == i,
                forall|j: int| 0 <= j < i ==> vram@[j] == 0,
            decreases 0x2000 - i,
        {
            vram.push(0);
            i = i + 1;
        }
        NROM { prg_banks, vram }
    }

    /// Where a processor read lands: board RAM below 0x8000, program ROM
    /// above, mirrored down to one bank when only one is present.
    pub fn map_cpu_read_address(&self, address: usize, mapped_address: &mut usize) -> (r:
        MapperStatus)
        requires
            self.wf(),
        ensures
            0x6000 <= address < 0x8000 ==> r == MapperStatus::ReadRam(
                self.vram@[address as int % 0x2000],
            ) && *final(mapped_address) == *old(mapped_address),
            address < 0x6000 ==> r == MapperStatus::Unreadable && *final(mapped_address) == *old(
                mapped_address,
            ),
            address >= 0x8000 ==> r == MapperStatus::Read && *final(mapped_address) == if self.prg_banks
                > 1 {
                address as int % 0x8000
            } else {
                address as int % 0x4000
            },
    {
        if address >= 0x6000 && address < 0x8000 {
            return MapperStatus::ReadRam(self.vram[address % 0x2000]);
        }
        if address < 0x8000 {
            return MapperStatus::Unreadable;
        }
        *mapped_address = if self.prg_banks > 1 {
            address % 0x8000
        } else {
            address % 0x4000
        };
        MapperStatus::Read
    }

    /// Where a processor write lands: only the board RAM accepts writes.
    pub fn map_cpu_write_address(&mut self, address: usize, mapped_address: &mut usize, value: u8)
        -> (r: MapperStatus)
        requires
            old(self).wf(),
        ensures
            final(self).wf(),
            final(self).prg_banks == old(self).prg_banks,
            *final(mapped_address) == *old(mapped_address),
            0x6000 <= address < 0x8000 ==> r == MapperStatus::Write && final(self).vram@ == old(
                self,
            ).vram@.update(address as int % 0x2000, value),
            !(0x6000 <= address < 0x8000) ==> r == MapperStatus::Unreadable && *final(self)
                == *old(self),
    {
        if address >= 0x6000 && address < 0x8000 {
            self.vram.set(address % 0x2000, value);
            return MapperStatus::Write;
        }
        MapperStatus::Unreadable
    }

    /// Where a picture-bus read lands: pattern data maps straight through.
    pub fn map_ppu_read_address(&self, address: usize, mapped_address: &mut usize) -> (r:
        MapperStatus)
        ensures
            address < 0x2000 ==> r == MapperStatus::Read && *final(mapped_address) == address,
            address >= 0x2000 ==> r == MapperStatus::Unreadable && *final(mapped_address) == *old(
                mapped_address,
            ),
    {
        if address >= 0x2000 {
            return MapperStatus::Unreadable;
        }
        *mapped_address = address;
        MapperStatus::Read
    }

    /// The board never claims picture-bus writes; the cartridge decides
    /// whether character RAM accepts them.
    pub fn map_ppu_write_address(&mut self, address: usize, mapped_address: &mut usize, value: u8)
        -> (r: MapperStatus)
        ensures
            r == MapperStatus::Unreadable,
            *final(self) == *old(self),
            *final(mapped_address) == *old(mapped_address),
    {
        MapperStatus::Unreadable
    }
}

impl Mapper for NROM {
    fn cpu_map_read(&self, address: usize, mapped_address: &mut usize) -> MapperStatus {
        if !(self.vram.len() == 0x2000) {
            return MapperStatus::Unreadable;
        }
        self.map_cpu_read_address(address, mapped_address)
    }

    fn cpu_map_write(&mut self, address: usize, mapped_address: &mut usize, value: u8)
        -> MapperStatus {
        if !(self.vram.len() == 0x2000) {
            return MapperStatus::Unreadable;
        }
        self.map_cpu_write_address(address, mapped_address, value)
    }

    fn ppu_map_read(&self, address: usize, mapped_address: &mut usize) -> MapperStatus {
        self.map_ppu_read_address(address, mapped_address)
    }

    fn ppu_map_write(&mut self, address: usize, mapped_address: &mut usize, value: u8)
        -> MapperStatus {
        self.map_ppu_write_address(address, mapped_address, value)
    }
}

/// A stateless description of the NROM translation, keeping only the bank
/// counts; board RAM accesses are reported as `Vram` for the caller to
/// serve.
pub struct MapperNROM {
    /// How many 16 KiB program banks the cartridge holds.
    pub prg_rom_num: u8,
    /// How many 8 KiB character banks the cartridge holds.
    pub chr_rom_num: u8,
}

impl MapperNROM {
    /// A translation table for the given bank counts.
    pub fn new(prg_rom_num: u8, chr_rom_num: u8) -> (r: MapperNROM)
        ensures
            r.prg_rom_num == prg_rom_num,
            r.chr_rom_num == chr_rom_num,
    {
        MapperNROM { prg_rom_num, chr_rom_num }
    }
}

impl Mapper for MapperNROM {
    fn cpu_map_read(&self, address: usize, mapped_address: &mut usize) -> (r: MapperStatus)
        ensures
            0x6000 <= address < 0x8000 ==> r == MapperStatus::Vram && *final(mapped_address)
                == address,
            address >= 0x8000 ==> r == MapperStatus::Read && *final(mapped_address) == if self.prg_rom_num
                > 1 {
                address as int % 0x8000
            } else {
                address as int % 0x4000
            },
            address < 0x6000 ==> r == MapperStatus::Unreadable && *final(mapped_address) == *old(
                mapped_address,
            ),
    {
        if address >= 0x6000 && address < 0x8000 {
            *mapped_address = address;
            return MapperStatus::Vram;
        }
        if address >= 0x8000 {
            *mapped_address = if self.prg_rom_num > 1 {
                address % 0x8000
            } else {
                address % 0x4000
            };
            return MapperStatus::Read;
        }
        MapperStatus::Unreadable
    }

    fn cpu_map_write(&mut self, address: usize, mapped_address: &mut usize, value: u8) -> (r:
        MapperStatus)
        ensures
            *final(self) == *old(self),
            0x6000 <= address < 0x8000 ==> r == MapperStatus::Vram && *final(mapped_address)
                == address,
            address >= 0x8000 ==> r == MapperStatus::Read && *final(mapped_address) == if old(
                self,
            ).prg_rom_num > 1 {
                address as int % 0x8000
            } else {
                address as int % 0x4000
            },
            address < 0x6000 ==> r == MapperStatus::Unreadable && *final(mapped_address) == *old(
                mapped_address,
            ),
    {
        if address >= 0x6000 && address < 0x8000 {
            *mapped_address = address;
            return MapperStatus::Vram;
        }
        if address >= 0x8000 {
            *mapped_address = if self.prg_rom_num > 1 {
                address % 0x8000
            } else {
                address % 0x4000
            };
            return MapperStatus::Read;
        }
        MapperStatus::Unreadable
    }

    fn ppu_map_read(&self, address: usize, mapped_address: &mut usize) -> (r: MapperStatus)
        ensures
            address < 0x2000 ==> r == MapperStatus::Read && *final(mapped_address) == address,
            address >= 0x2000 ==> r == MapperStatus::Unreadable && *final(mapped_address) == *old(
                mapped_address,
            ),
    {
        if address < 0x2000 {
            *mapped_address = address;
            MapperStatus::Read
        } else {
            MapperStatus::Unreadable
        }
    }

    fn ppu_map_write(&mut self, address: usize, mapped_address: &mut usize, value: u8) -> (r:
        MapperStatus)
        ensures
            r == MapperStatus::Unreadable,
            *final(self) == *old(self),
            *final(mapped_address) == *old(mapped_address),
    {
        MapperStatus::Unreadable
    }
}

} // verus!
