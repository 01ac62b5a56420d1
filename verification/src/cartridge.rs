//! The cartridge: an iNES image parsed into program ROM, character memory
//! and board RAM, with the NROM translation in front of them.

use vstd::prelude::*;
use crate::mappers::{MapperStatus, NROM};

verus! {

/// How the board wires the two console nametables onto the four logical
/// ones. `Hardware` stands for a board that decides for itself.
#[derive(Clone, Copy, PartialEq, Eq, Structural, Debug)]
pub enum MirroringMode {
    Hardware,
    Horizontal,
    Vertical,
    SingleScreen,
}

/// Why an image was rejected: a bad or missing header, too few bytes for
/// the banks the header announces, or a board this core does not model.
#[derive(Clone, Copy, PartialEq, Eq, Structural, Debug)]
pub enum NesError {
    InvalidHeader,
    TruncatedRom,
    UnsupportedMapper(u8),
}

/// The fixed-size header at the front of an iNES image, after the magic.
#[derive(Clone, Copy, PartialEq, Eq, Structural, Debug)]
pub struct NESHeader {
    /// 16 KiB program banks.
    pub prg_rom_chunks: u8,
    /// 8 KiB character banks; zero means the board carries character RAM.
    pub chr_rom_chunks: u8,
    /// Flag byte six: mirroring, trainer, four-screen, low mapper nibble.
    pub mapper1: u8,
    /// Flag byte seven: high mapper nibble.
    pub mapper2: u8,
    /// Program-RAM size field.
    pub prg_ram_size: u8,
    /// First television-system field.
    pub tv_system1: u8,
    /// Second television-system field.
    pub tv_system2: u8,
}

/// Whether the image begins with the iNES magic, has a whole header, and
/// announces at least one program bank.
pub open spec fn ines_header_valid(b: Seq<u8>) -> bool {
    b.len() >= 16 && b[0] == 0x4e && b[1] == 0x45 && b[2] == 0x53 && b[3] == 0x1a && b[4] >= 1
}

/// Whether flag byte six announces a 512-byte trainer before the banks.
pub open spec fn ines_has_trainer(b: Seq<u8>) -> bool {
    (b[6] / 4) % 2 == 1
}

/// Where the program banks start: after the header and any trainer.
pub open spec fn ines_data_offset(b: Seq<u8>) -> int {
    if ines_has_trainer(b) {
        528
    } else {
        16
    }
}

/// How many bytes the header announces in all.
pub open spec fn ines_needed_len(b: Seq<u8>) -> int {
    ines_data_offset(b) + b[4] * 16384 + b[5] * 8192
}

/// The mapper number: high nibble of flag seven over high nibble of flag
/// six.
pub open spec fn ines_mapper_id(b: Seq<u8>) -> int {
    (b[7] / 16) * 16 + b[6] / 16
}

/// The nametable arrangement bit zero of flag six selects.
pub open spec fn ines_mirroring(b: Seq<u8>) -> MirroringMode {
    if b[6] % 2 == 0 {
        MirroringMode::Horizontal
    } else {
        MirroringMode::Vertical
    }
}

/// Copy `len` bytes of `buffer` starting at `start` into a fresh vector.
fn copy_range(buffer: &Vec<u8>, start: usize, len: usize) -> (r: Vec<u8>)
    requires
        start + len <= buffer@.len(),
    ensures
        r@ == buffer@.subrange(start as int, start + len),
{
    let mut out: Vec<u8> = Vec::new();
    let mut i: usize = 0;
    let blen = buffer.len();
    while i < len
        invariant
            i <= len,
            start + len <= blen == buffer@.len(),
            out@ == buffer@.subrange(start as int, start + i),
        decreases len - i,
    {
        out.push(buffer[start + i]);
        assert(out@ == buffer@.subrange(start as int, start + i + 1));
        i = i + 1;
    }
    out
}

/// A vector of `len` zero bytes.
pub(crate) fn zero_vec(len: usize) -> (r: Vec<u8>)
    ensures
        r@.len() == len,
        forall|i: int| 0 <= i < len ==> r@[i] == 0,
{
    let mut out: Vec<u8> = Vec::new();
    let mut i: usize = 0;
    while i < len
        invariant
            i <= len,
            out@.len() == i,
            forall|j: int| 0 <= j < i ==> out@[j] == 0,
        decreases len - i,
    {
        out.push(0);
        i = i + 1;
    }
    out
}

/// A parsed cartridge: the memories an image carries and the board that
/// maps them.
pub struct Cartridge {
    /// The image's header fields.
    pub header: NESHeader,
    /// The program ROM, in 16 KiB banks.
    pub prg_rom: Vec<u8>,
    /// The character ROM, in 8 KiB banks; empty when the board uses RAM.
    pub chr_rom: Vec<u8>,
    /// 8 KiB of character RAM, used when no character ROM is present.
    pub chr_ram: Vec<u8>,
    /// How many 16 KiB program banks are present.
    pub n_prg_banks: usize,
    /// How many 8 KiB character banks are present.
    pub n_chr_banks: usize,
    /// The nametable arrangement the board is soldered to.
    pub hw_mirroring: MirroringMode,
    /// The mapper number the header names.
    pub mapper_id: u8,
    /// The board itself.
    pub mapper: NROM,
    /// Whether the last access was answered by the cartridge.
    pub use_cartridge_data: bool,
}

impl Cartridge {
    /// The structural facts every parsed cartridge keeps: bank counts match
    /// the header, every memory has the size its bank count announces, and
    /// the board agrees on the program bank count.
    pub open spec fn wf(&self) -> bool {
        &&& self.n_prg_banks == self.header.prg_rom_chunks
        &&& self.n_chr_banks == self.header.chr_rom_chunks
        &&& self.n_prg_banks >= 1
        &&& self.prg_rom@.len() == self.n_prg_banks * 16384
        &&& self.chr_rom@.len() == self.n_chr_banks * 8192
        &&& self.chr_ram@.len() == 8192
        &&& self.mapper.wf()
        &&& self.mapper.prg_banks == self.n_prg_banks
        &&& self.mapper_id == 0
    }

    /// Parse an iNES image. Exactly the images with the magic, a full
    /// header, at least one program bank, all announced bytes present, and
    /// the NROM board are accepted; each rejection names its first reason
    /// in the order header, length, mapper.
    pub fn parse(buffer: &Vec<u8>) -> (r: Result<Cartridge, NesError>)
        ensures
            r is Ok <==> ines_header_valid(buffer@) && buffer@.len() >= ines_needed_len(buffer@)
                && ines_mapper_id(buffer@) == 0,
            !ines_header_valid(buffer@) ==> r == Result::<Cartridge, NesError>::Err(
                NesError::InvalidHeader,
            ),
            ines_header_valid(buffer@) && buffer@.len() < ines_needed_len(buffer@) ==> r
                == Result::<Cartridge, NesError>::Err(NesError::TruncatedRom),
            ines_header_valid(buffer@) && buffer@.len() >= ines_needed_len(buffer@)
                && ines_mapper_id(buffer@) != 0 ==> r == Result::<Cartridge, NesError>::Err(
                NesError::UnsupportedMapper(ines_mapper_id(buffer@) as u8),
            ),
            r is Ok ==> ({
                let c = r->Ok_0;
                &&& c.wf()
                &&& c.n_prg_banks == buffer@[4]
                &&& c.n_chr_banks == buffer@[5]
                &&& c.prg_rom@ == buffer@.subrange(
                    ines_data_offset(buffer@),
                    ines_data_offset(buffer@) + buffer@[4] * 16384,
                )
                &&& c.chr_rom@ == buffer@.subrange(
                    ines_data_offset(buffer@) + buffer@[4] * 16384,
                    ines_data_offset(buffer@) + buffer@[4] * 16384 + buffer@[5] * 8192,
                )
                &&& c.hw_mirroring == ines_mirroring(buffer@)
                &&& forall|i: int| 0 <= i < 8192 ==> c.chr_ram@[i] == 0
                &&& !c.use_cartridge_data
            }),
    {
        if buffer.len() < 16 {
            return Err(NesError::InvalidHeader);
        }
        if !(buffer[0] == 0x4e && buffer[1] == 0x45 && buffer[2] == 0x53 && buffer[3] == 0x1a) {
            return Err(NesError::InvalidHeader);
        }
        let prg_chunks = buffer[4];
        let chr_chunks = buffer[5];
        let mapper1 = buffer[6];
        let mapper2 = buffer[7];
        if prg_chunks < 1 {
            return Err(NesError::InvalidHeader);
        }
        let offset: usize = if (mapper1 / 4) % 2 == 1 {
            528
        } else {
            16
        };
        let prg_size: usize = (prg_chunks as usize) * 16384;
        let chr_size: usize = (chr_chunks as usize) * 8192;
        if buffer.len() < offset + prg_size + chr_size {
            return Err(NesError::TruncatedRom);
        }
        let mapper_id: u8 = (mapper2 / 16) * 16 + mapper1 / 16;
        if mapper_id != 0 {
            return Err(NesError::UnsupportedMapper(mapper_id));
        }
        let prg_rom = copy_range(buffer, offset, prg_size);
        let chr_rom = copy_range(buffer, offset + prg_size, chr_size);
        let hw_mirroring = if mapper1 % 2 == 0 {
            MirroringMode::Horizontal
        } else {
            MirroringMode::Vertical
        };
        Ok(
            Cartridge {
                header: NESHeader {
                    prg_rom_chunks: prg_chunks,
                    chr_rom_chunks: chr_chunks,
                    mapper1,
                    mapper2,
                    prg_ram_size: buffer[8],
                    tv_system1: buffer[9],
                    tv_system2: buffer[10],
                },
                prg_rom,
                chr_rom,
                chr_ram: zero_vec(8192),
                n_prg_banks: prg_chunks as usize,
                n_chr_banks: chr_chunks as usize,
                hw_mirroring,
                mapper_id,
                mapper: NROM::new(prg_chunks),
                use_cartridge_data: false,
            },
        )
    }

    /// The program ROM.
    pub fn prg_rom(&self) -> (r: &Vec<u8>)
        ensures
            r@ == self.prg_rom@,
    {
        &self.prg_rom
    }

    /// The character memory the picture bus sees: ROM when banks are
    /// present, the board's RAM otherwise.
    pub fn chr_rom(&self) -> (r: &Vec<u8>)
        ensures
            r@ == if self.n_chr_banks == 0 {
                self.chr_ram@
            } else {
                self.chr_rom@
            },
    {
        if self.n_chr_banks == 0 {
            &self.chr_ram
        } else {
            &self.chr_rom
        }
    }

    /// The parsed header fields.
    pub fn header(&self) -> (r: NESHeader)
        ensures
            r == self.header,
    {
        self.header
    }

    /// The nametable arrangement.
    pub fn mirroring(&self) -> (r: MirroringMode)
        ensures
            r == self.hw_mirroring,
    {
        self.hw_mirroring
    }

    /// Whether the cartridge answered the last access itself.
    pub fn use_cartridge_data(&self) -> (r: bool)
        ensures
            r == self.use_cartridge_data,
    {
        self.use_cartridge_data
    }

    /// A processor-bus read. Board RAM answers 0x6000..=0x7FFF, program ROM
    /// answers from 0x8000 up (mirrored when only one bank is present), and
    /// everything lower is left to the rest of the bus, reading as zero
    /// with the claim flag down.
    pub fn read(&mut self, address: usize, is_read_only: bool) -> (r: u8)
        requires
            old(self).wf(),
        ensures
            final(self).wf(),
            *final(self) == (Cartridge {
                use_cartridge_data: final(self).use_cartridge_data,
                ..*old(self)
            }),
            final(self).use_cartridge_data == (address >= 0x6000),
            0x6000 <= address < 0x8000 ==> r == old(self).mapper.vram@[address as int % 0x2000],
            address >= 0x8000 ==> r == old(self).prg_rom@[if old(self).mapper.prg_banks > 1 {
                address as int % 0x8000
            } else {
                address as int % 0x4000
            }],
            address < 0x6000 ==> r == 0,
    {
        let mut mapped_address: usize = 0;
        let result = self.mapper.map_cpu_read_address(address, &mut mapped_address);
        match result {
            MapperStatus::Read => {
                self.use_cartridge_data = true;
                proof {
                    if self.mapper.prg_banks > 1 {
                        assert(self.prg_rom@.len() >= 2 * 16384);
                    }
                }
                self.prg_rom[mapped_address]
            },
            MapperStatus::ReadRam(data) => {
                self.use_cartridge_data = true;
                data
            },
            _ => {
                self.use_cartridge_data = false;
                0
            },
        }
    }

    /// A processor-bus write: only the board RAM at 0x6000..=0x7FFF accepts
    /// it; elsewhere the claim flag goes down and nothing changes.
    pub fn write(&mut self, address: usize, value: u8)
        requires
            old(self).wf(),
        ensures
            final(self).wf(),
            final(self).use_cartridge_data == (0x6000 <= address < 0x8000),
            0x6000 <= address < 0x8000 ==> final(self).mapper.vram@ == old(
                self,
            ).mapper.vram@.update(address as int % 0x2000, value) && *final(self) == (Cartridge {
                use_cartridge_data: true,
                mapper: final(self).mapper,
                ..*old(self)
            }),
            !(0x6000 <= address < 0x8000) ==> *final(self) == (Cartridge {
                use_cartridge_data: false,
                ..*old(self)
            }),
            final(self).prg_rom@ == old(self).prg_rom@,
            final(self).chr_rom@ == old(self).chr_rom@,
            final(self).chr_ram@ == old(self).chr_ram@,
            final(self).header == old(self).header,
            final(self).hw_mirroring == old(self).hw_mirroring,
            final(self).n_prg_banks == old(self).n_prg_banks,
            final(self).n_chr_banks == old(self).n_chr_banks,
            final(self).mapper.prg_banks == old(self).mapper.prg_banks,
            final(self).mapper_id == old(self).mapper_id,
    {
        let mut mapped_address: usize = 0;
        let result = self.mapper.map_cpu_write_address(address, &mut mapped_address, value);
        match result {
            MapperStatus::Write => {
                self.use_cartridge_data = true;
            },
            _ => {
                self.use_cartridge_data = false;
            },
        }
    }

    /// A picture-bus read: pattern addresses below 0x2000 are answered from
    /// character memory; everything above is left to the picture unit.
    pub fn ppu_read(&mut self, address: usize, is_read_only: bool) -> (r: u8)
        requires
            old(self).wf(),
        ensures
            final(self).wf(),
            *final(self) == (Cartridge {
                use_cartridge_data: final(self).use_cartridge_data,
                ..*old(self)
            }),
            final(self).use_cartridge_data == (address < 0x2000),
            address < 0x2000 ==> r == if old(self).n_chr_banks == 0 {
                old(self).chr_ram@[address as int]
            } else {
                old(self).chr_rom@[address as int]
            },
            address >= 0x2000 ==> r == 0,
    {
        let mut mapped_address: usize = 0;
        let result = self.mapper.map_ppu_read_address(address, &mut mapped_address);
        match result {
            MapperStatus::Read => {
                self.use_cartridge_data = true;
                proof {
                    if self.n_chr_banks > 0 {
                        assert(self.chr_rom@.len() >= 8192);
                    }
                }
                if self.n_chr_banks == 0 {
                    self.chr_ram[mapped_address]
                } else {
                    self.chr_rom[mapped_address]
                }
            },
            _ => {
                self.use_cartridge_data = false;
                0
            },
        }
    }

    /// A picture-bus write: pattern addresses land in character RAM, which
    /// only matters on boards without character ROM; everything above is
    /// left to the picture unit.
    pub fn ppu_write(&mut self, address: usize, value: u8)
        requires
            old(self).wf(),
        ensures
            final(self).wf(),
            final(self).use_cartridge_data == (address < 0x2000),
            address < 0x2000 ==> final(self).chr_ram@ == old(self).chr_ram@.update(
                address as int,
                value,
            ),
            address >= 0x2000 ==> final(self).chr_ram@ == old(self).chr_ram@,
            final(self).prg_rom@ == old(self).prg_rom@,
            final(self).chr_rom@ == old(self).chr_rom@,
            final(self).mapper.vram@ == old(self).mapper.vram@,
            final(self).header == old(self).header,
            final(self).hw_mirroring == old(self).hw_mirroring,
            final(self).n_prg_banks == old(self).n_prg_banks,
            final(self).n_chr_banks == old(self).n_chr_banks,
            final(self).mapper.prg_banks == old(self).mapper.prg_banks,
            final(self).mapper_id == old(self).mapper_id,
    {
        let mut mapped_address: usize = 0;
        let result = self.mapper.map_ppu_read_address(address, &mut mapped_address);
        match result {
            MapperStatus::Read => {
                self.use_cartridge_data = true;
                self.chr_ram.set(mapped_address, value);
            },
            _ => {
                self.use_cartridge_data = false;
            },
        }
    }
}

} // verus!
