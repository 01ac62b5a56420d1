//! The console fabric: the processor-bus address decoder over RAM, picture
//! registers, cartridge and controller ports, the sprite-memory block
//! transfer, and the master clock that runs the picture unit three times
//! for every processor cycle.

use vstd::prelude::*;
use crate::cartridge::{Cartridge, NesError};
use crate::controller::Controller;
use crate::cpu::CPU;
use crate::memory::Memory;
use crate::ppu::PPU;

verus! {

/// The processor's memory map: 2 KiB of RAM mirrored below 0x2000, the
/// picture registers mirrored below 0x4000, the transfer and controller
/// ports, and the cartridge above; it also owns and steps the sprite-memory
/// block transfer.
pub struct NesMemoryMapper {
    /// The 2 KiB of console RAM.
    pub ram: Vec<u8>,
    /// The cartridge.
    pub cartridge: Cartridge,
    /// The picture unit.
    pub ppu: PPU,
    /// The first controller port.
    pub controller1: Controller,
    /// The second controller port.
    pub controller2: Controller,
    /// The page a running block transfer reads from.
    pub oam_dma_page: u8,
    /// The next byte offset of the running block transfer.
    pub oam_dma_address: u8,
    /// The byte the transfer carried across its last read tick.
    pub dma_data: u8,
    /// Whether a block transfer is stealing processor cycles.
    pub do_oam_dma: bool,
    /// Whether the transfer is still in its alignment tick.
    pub dma_wait: bool,
}

impl NesMemoryMapper {
    /// The structural facts of the fabric: RAM size and the health of the
    /// parts it owns.
    pub open spec fn wf(&self) -> bool {
        &&& self.ram@.len() == 0x800
        &&& self.cartridge.wf()
        &&& self.ppu.wf()
    }

    /// A fabric around the given cartridge: cleared RAM, fresh picture
    /// unit and controllers, no transfer running.
    pub fn new(cartridge: Cartridge) -> (r: NesMemoryMapper)
        requires
            cartridge.wf(),
        ensures
            r.wf(),
            r.cartridge == cartridge,
            !r.do_oam_dma,
            !r.ppu.done_drawing,
            !r.ppu.call_nmi,
            r.ppu.cycle == 0 && r.ppu.scanline == 0,
            forall|i: int| 0 <= i < 0x800 ==> r.ram@[i] == 0,
    {
        NesMemoryMapper {
            ram: crate::cartridge::zero_vec(0x800),
            cartridge,
            ppu: PPU::new(),
            controller1: Controller::new(),
            controller2: Controller::new(),
            oam_dma_page: 0,
            oam_dma_address: 0,
            dma_data: 0,
            do_oam_dma: false,
            dma_wait: true,
        }
    }

    /// The picture-register hop of a processor read, with the register
    /// semantics restated at the fabric level.
    #[verifier::rlimit(100)]
    fn ppu_register_read(&mut self, address: usize, is_read_only: bool) -> (r: u8)
        requires
            old(self).wf(),
            0x2000 <= address < 0x4000,
        ensures
            final(self).wf(),
            final(self).ram@ == old(self).ram@,
            final(self).cartridge.prg_rom@ == old(self).cartridge.prg_rom@,
            final(self).cartridge.mapper.vram@ == old(self).cartridge.mapper.vram@,
            *final(self) == (NesMemoryMapper {
                ppu: final(self).ppu,
                cartridge: final(self).cartridge,
                ..*old(self)
            }),
            final(self).cartridge == (Cartridge {
                use_cartridge_data: final(self).cartridge.use_cartridge_data,
                ..old(self).cartridge
            }),
            final(self).ppu.cycle == old(self).ppu.cycle,
            final(self).ppu.scanline == old(self).ppu.scanline,
            final(self).ppu.done_drawing == old(self).ppu.done_drawing,
            final(self).ppu.call_nmi == old(self).ppu.call_nmi,
            final(self).ppu.odd_frame == old(self).ppu.odd_frame,
            final(self).ppu.oams.oams@ == old(self).ppu.oams.oams@,
            final(self).ppu.oam_address == old(self).ppu.oam_address,
            (address as int % 8 == 0 || address as int % 8 == 1 || address as int % 8 == 5
                || address as int % 8 == 6) ==> r == 0 && final(self).ppu == old(self).ppu,
            address as int % 8 == 3 ==> r == 0xff && final(self).ppu == old(self).ppu,
            address as int % 8 == 4 ==> r == crate::ppu::oam_byte(
                old(self).ppu.oams.oams@,
                old(self).ppu.oam_address as int,
            ) && final(self).ppu == old(self).ppu,
            address as int % 8 == 2 && is_read_only ==> r == crate::ppu::spec_status_byte(
                &old(self).ppu,
            ) && final(self).ppu == old(self).ppu,
            address as int % 8 == 7 && is_read_only ==> r == (if old(self).ppu.vaddress.spec_address() % 0x4000 >= 0x3f00 {
                old(self).ppu.palette_table@[crate::ppu::palette_idx(
                    old(self).ppu.vaddress.spec_address() % 0x4000,
                )]
            } else {
                old(self).ppu.data_buffer
            }) && final(self).ppu == old(self).ppu,
            address as int % 8 == 2 && !is_read_only ==> r == crate::ppu::spec_status_byte(
                &old(self).ppu,
            ) && final(self).ppu == (PPU {
                status_vblank: false,
                address_latch: crate::ppu::AddressLatch::Hi,
                ..old(self).ppu
            }),
            address as int % 8 == 7 && !is_read_only ==> (final(self).ppu.data_port_view(), r)
                == crate::ppu::data_port_r2007(
                old(self).ppu.data_port_view(),
                old(self).cartridge.hw_mirroring,
                crate::ppu::chr_view(&old(self).cartridge),
            ) && final(self).ppu == (PPU {
                vaddress: final(self).ppu.vaddress,
                data_buffer: final(self).ppu.data_buffer,
                ..old(self).ppu
            }),
    {
        let mm_ppu = &mut self.ppu;
        mm_ppu.read_register(&mut self.cartridge, address, is_read_only)
    }

    /// One processor read, decoded by address range: RAM and its mirrors,
    /// a picture register, a controller shift-out, the cartridge, or the
    /// open bus reading as zero.
    #[verifier::rlimit(100)]
    pub fn read(&mut self, address: usize, is_read_only: bool) -> (r: u8)
        requires
            old(self).wf(),
            address < 0x10000,
        ensures
            final(self).wf(),
            final(self).ram@ == old(self).ram@,
            final(self).cartridge.prg_rom@ == old(self).cartridge.prg_rom@,
            final(self).cartridge.mapper.vram@ == old(self).cartridge.mapper.vram@,
            final(self).ppu.cycle == old(self).ppu.cycle,
            final(self).ppu.scanline == old(self).ppu.scanline,
            final(self).ppu.done_drawing == old(self).ppu.done_drawing,
            final(self).ppu.call_nmi == old(self).ppu.call_nmi,
            final(self).ppu.odd_frame == old(self).ppu.odd_frame,
            final(self).ppu.oams.oams@ == old(self).ppu.oams.oams@,
            final(self).ppu.oam_address == old(self).ppu.oam_address,
            final(self).do_oam_dma == old(self).do_oam_dma,
            final(self).dma_wait == old(self).dma_wait,
            final(self).oam_dma_address == old(self).oam_dma_address,
            final(self).oam_dma_page == old(self).oam_dma_page,
            final(self).dma_data == old(self).dma_data,
            address < 0x2000 ==> r == old(self).ram@[address as int % 0x800] && *final(self)
                == (NesMemoryMapper { cartridge: final(self).cartridge, ..*old(self) }),
            0x6000 <= address < 0x8000 ==> r == old(self).cartridge.mapper.vram@[address as int
                % 0x2000],
            address >= 0x8000 ==> r == old(self).cartridge.prg_rom@[if old(self).cartridge.mapper.prg_banks > 1 {
                address as int % 0x8000
            } else {
                address as int % 0x4000
            }],
            address == 0x4016 ==> r == crate::controller::controller_read_value(
                old(self).controller1,
            ) && final(self).controller1 == crate::controller::controller_after_read(
                old(self).controller1,
            ),
            address == 0x4017 ==> r == crate::controller::controller_read_value(
                old(self).controller2,
            ) && final(self).controller2 == crate::controller::controller_after_read(
                old(self).controller2,
            ),
            0x4000 <= address < 0x6000 && address != 0x4016 && address != 0x4017 ==> r == 0
                && *final(self) == (NesMemoryMapper { cartridge: final(self).cartridge, ..*old(self) }),
            0x2000 <= address < 0x4000 && (address as int % 8 == 0 || address as int % 8 == 1
                || address as int % 8 == 5 || address as int % 8 == 6) ==> r == 0 && *final(self)
                == (NesMemoryMapper { cartridge: final(self).cartridge, ..*old(self) }),
            0x2000 <= address < 0x4000 && address as int % 8 == 3 ==> r == 0xff && *final(self)
                == (NesMemoryMapper { cartridge: final(self).cartridge, ..*old(self) }),
            0x2000 <= address < 0x4000 && address as int % 8 == 4 ==> r == crate::ppu::oam_byte(
                old(self).ppu.oams.oams@,
                old(self).ppu.oam_address as int,
            ) && *final(self) == (NesMemoryMapper { cartridge: final(self).cartridge, ..*old(self) }),
            0x2000 <= address < 0x4000 && address as int % 8 == 2 && is_read_only ==> r
                == crate::ppu::spec_status_byte(&old(self).ppu) && final(self).ppu == old(self).ppu,
            0x2000 <= address < 0x4000 && address as int % 8 == 7 && is_read_only ==> r == (if old(self).ppu.vaddress.spec_address() % 0x4000 >= 0x3f00 {
                old(self).ppu.palette_table@[crate::ppu::palette_idx(
                    old(self).ppu.vaddress.spec_address() % 0x4000,
                )]
            } else {
                old(self).ppu.data_buffer
            }) && final(self).ppu == old(self).ppu,
            0x2000 <= address < 0x4000 && address as int % 8 == 2 && !is_read_only ==> r
                == crate::ppu::spec_status_byte(&old(self).ppu) && !final(self).ppu.status_vblank
                && final(self).ppu.address_latch is Hi && final(self).ppu == (PPU {
                status_vblank: false,
                address_latch: crate::ppu::AddressLatch::Hi,
                ..old(self).ppu
            }),
            0x2000 <= address < 0x4000 && address as int % 8 == 7 && !is_read_only ==> (final(self).ppu.data_port_view(), r) == crate::ppu::data_port_r2007(
                old(self).ppu.data_port_view(),
                old(self).cartridge.hw_mirroring,
                crate::ppu::chr_view(&old(self).cartridge),
            ) && final(self).ppu == (PPU {
                vaddress: final(self).ppu.vaddress,
                data_buffer: final(self).ppu.data_buffer,
                ..old(self).ppu
            }),
    {
        let cartridge_data = self.cartridge.read(address, is_read_only);
        if self.cartridge.use_cartridge_data() {
            return cartridge_data;
        }
        if address < 0x2000 {
            self.ram[address % 0x800]
        } else if address < 0x4000 {
            self.ppu_register_read(address, is_read_only)
        } else if address == 0x4016 {
            self.controller1.read()
        } else if address == 0x4017 {
            self.controller2.read()
        } else {
            // The transfer trigger, the sound registers and the rest of
            // the expansion area read as open bus, taken here as zero.
            0
        }
    }

    /// The picture-register hop of a processor write, with the register
    /// semantics restated at the fabric level.
    #[verifier::spinoff_prover]
    #[verifier::rlimit(100)]
    fn ppu_register_write(&mut self, address: usize, value: u8)
        requires
            old(self).wf(),
            0x2000 <= address < 0x4000,
        ensures
            final(self).wf(),
            final(self).ram@ == old(self).ram@,
            final(self).ppu.cycle == old(self).ppu.cycle,
            final(self).ppu.scanline == old(self).ppu.scanline,
            final(self).ppu.done_drawing == old(self).ppu.done_drawing,
            final(self).ppu.call_nmi == old(self).ppu.call_nmi,
            final(self).ppu.odd_frame == old(self).ppu.odd_frame,
            final(self).cartridge.prg_rom@ == old(self).cartridge.prg_rom@,
            final(self).cartridge.chr_rom@ == old(self).cartridge.chr_rom@,
            final(self).cartridge.hw_mirroring == old(self).cartridge.hw_mirroring,
            final(self).cartridge.n_prg_banks == old(self).cartridge.n_prg_banks,
            final(self).cartridge.n_chr_banks == old(self).cartridge.n_chr_banks,
            final(self).cartridge.header == old(self).cartridge.header,
            final(self).cartridge.mapper.prg_banks == old(self).cartridge.mapper.prg_banks,
            final(self).cartridge.mapper.vram@ == old(self).cartridge.mapper.vram@,
            *final(self) == (NesMemoryMapper {
                ppu: final(self).ppu,
                cartridge: final(self).cartridge,
                ..*old(self)
            }),
            address as int % 8 != 7 ==> final(self).cartridge == old(self).cartridge,
            address as int % 8 == 0 ==> final(self).ppu == (PPU {
                control: final(self).ppu.control,
                temp_address: final(self).ppu.temp_address,
                ..old(self).ppu
            }) && final(self).ppu.control.bits == value && final(self).ppu.temp_address
                == (crate::ppu::PPUAddress {
                nametable_x: (value as int % 2) as u8,
                nametable_y: ((value as int / 2) % 2) as u8,
                ..old(self).ppu.temp_address
            }),
            address as int % 8 == 1 ==> final(self).ppu == (PPU {
                mask: (crate::ppu::PPUMask { bits: value }),
                ..old(self).ppu
            }),
            address as int % 8 == 2 ==> final(self).ppu == old(self).ppu,
            address as int % 8 == 3 ==> final(self).ppu == (PPU {
                oam_address: value as usize,
                ..old(self).ppu
            }),
            address as int % 8 == 4 ==> final(self).ppu == (PPU {
                oams: final(self).ppu.oams,
                oam_address: ((old(self).ppu.oam_address + 1) % 256) as usize,
                ..old(self).ppu
            }) && final(self).ppu.oams.oams@ == old(self).ppu.oams.oams@.update(
                old(self).ppu.oam_address as int / 4,
                crate::ppu::oam_with_byte(
                    old(self).ppu.oams.oams@[old(self).ppu.oam_address as int / 4],
                    old(self).ppu.oam_address as int % 4,
                    value,
                ),
            ),
            address as int % 8 == 5 ==> final(self).ppu == (PPU {
                address_latch: final(self).ppu.address_latch,
                fine_x: final(self).ppu.fine_x,
                temp_address: final(self).ppu.temp_address,
                ..old(self).ppu
            }) && (old(self).ppu.address_latch is Hi ==> final(self).ppu.address_latch is Lo
                && final(self).ppu.fine_x == value as int % 8 && final(self).ppu.temp_address
                == (crate::ppu::PPUAddress {
                coarse_x: (value / 8) as u8,
                ..old(self).ppu.temp_address
            })) && (old(self).ppu.address_latch is Lo ==> final(self).ppu.address_latch is Hi
                && final(self).ppu.fine_x == old(self).ppu.fine_x && final(self).ppu.temp_address
                == (crate::ppu::PPUAddress {
                fine_y: (value as int % 8) as u8,
                coarse_y: (value / 8) as u8,
                ..old(self).ppu.temp_address
            })),
            address as int % 8 == 6 ==> final(self).ppu.data_port_view()
                == crate::ppu::data_port_w2006(old(self).ppu.data_port_view(), value) && final(self).ppu
                == (PPU {
                address_latch: final(self).ppu.address_latch,
                temp_address: final(self).ppu.temp_address,
                vaddress: final(self).ppu.vaddress,
                ..old(self).ppu
            }),
            address as int % 8 == 7 ==> final(self).ppu.data_port_view()
                == crate::ppu::data_port_w2007(
                old(self).ppu.data_port_view(),
                old(self).cartridge.hw_mirroring,
                value,
            ) && final(self).ppu == (PPU {
                nametable: final(self).ppu.nametable,
                palette_table: final(self).ppu.palette_table,
                vaddress: final(self).ppu.vaddress,
                ..old(self).ppu
            }) && final(self).cartridge.chr_ram@ == (if old(self).ppu.vaddress.spec_address()
                % 0x4000 < 0x2000 {
                old(self).cartridge.chr_ram@.update(
                    old(self).ppu.vaddress.spec_address() % 0x4000,
                    value,
                )
            } else {
                old(self).cartridge.chr_ram@
            }),
    {
        let mm_ppu = &mut self.ppu;
        mm_ppu.write_register(&mut self.cartridge, address, value);
    }

    /// One processor write, decoded by address range: RAM, a picture
    /// register, the transfer trigger, the controller strobe, or the
    /// cartridge; everything else is absorbed. The cartridge's wiring and
    /// its memories outside the written range survive every write.
    #[verifier::spinoff_prover]
    #[verifier::rlimit(100)]
    pub fn write(&mut self, address: usize, value: u8)
        requires
            old(self).wf(),
            address < 0x10000,
        ensures
            final(self).wf(),
            final(self).ppu.cycle == old(self).ppu.cycle,
            final(self).ppu.scanline == old(self).ppu.scanline,
            final(self).ppu.done_drawing == old(self).ppu.done_drawing,
            final(self).ppu.call_nmi == old(self).ppu.call_nmi,
            final(self).ppu.odd_frame == old(self).ppu.odd_frame,
            final(self).cartridge.prg_rom@ == old(self).cartridge.prg_rom@,
            final(self).cartridge.chr_rom@ == old(self).cartridge.chr_rom@,
            final(self).cartridge.hw_mirroring == old(self).cartridge.hw_mirroring,
            final(self).cartridge.n_prg_banks == old(self).cartridge.n_prg_banks,
            final(self).cartridge.n_chr_banks == old(self).cartridge.n_chr_banks,
            final(self).cartridge.header == old(self).cartridge.header,
            final(self).cartridge.mapper.prg_banks == old(self).cartridge.mapper.prg_banks,
            !(0x6000 <= address < 0x8000) ==> final(self).cartridge.mapper.vram@ == old(self).cartridge.mapper.vram@,
            !(0x2000 <= address < 0x4000 && address as int % 8 == 7) ==> final(self).cartridge.chr_ram@ == old(self).cartridge.chr_ram@,
            address >= 0x2000 ==> final(self).ram@ == old(self).ram@,
            address < 0x2000 ==> final(self).ram@ == old(self).ram@.update(
                address as int % 0x800,
                value,
            ) && *final(self) == (NesMemoryMapper {
                ram: final(self).ram,
                cartridge: final(self).cartridge,
                ..*old(self)
            }),
            0x6000 <= address < 0x8000 ==> final(self).cartridge.mapper.vram@ == old(self).cartridge.mapper.vram@.update(address as int % 0x2000, value) && *final(self)
                == (NesMemoryMapper { cartridge: final(self).cartridge, ..*old(self) }),
            address >= 0x8000 ==> *final(self) == (NesMemoryMapper {
                cartridge: final(self).cartridge,
                ..*old(self)
            }),
            address == OAM_DMA_TRIGGER ==> final(self).do_oam_dma && final(self).oam_dma_page
                == value && final(self).oam_dma_address == 0 && final(self).dma_wait && *final(self)
                == (NesMemoryMapper {
                cartridge: final(self).cartridge,
                do_oam_dma: true,
                oam_dma_page: value,
                oam_dma_address: 0u8,
                dma_wait: true,
                ..*old(self)
            }),
            address == 0x4016 ==> final(self).controller1.strobe == (value % 2 == 1) && final(self).controller2.strobe == (value % 2 == 1) && final(self).controller1.shift_register == (
            if value % 2 == 1 {
                old(self).controller1.button_status
            } else {
                old(self).controller1.shift_register
            }) && final(self).controller2.shift_register == (if value % 2 == 1 {
                old(self).controller2.button_status
            } else {
                old(self).controller2.shift_register
            }),
            0x4000 <= address < 0x6000 && address != OAM_DMA_TRIGGER && address != 0x4016 ==> *final(self) == (NesMemoryMapper {
                cartridge: final(self).cartridge,
                ..*old(self)
            }),
            0x2000 <= address < 0x4000 ==> *final(self) == (NesMemoryMapper {
                ppu: final(self).ppu,
                cartridge: final(self).cartridge,
                ..*old(self)
            }),
            0x2000 <= address < 0x4000 && address as int % 8 != 7 ==> final(self).cartridge
                == (Cartridge { use_cartridge_data: false, ..old(self).cartridge }),
            0x2000 <= address < 0x4000 && address as int % 8 == 0 ==> final(self).ppu == (PPU {
                control: final(self).ppu.control,
                temp_address: final(self).ppu.temp_address,
                ..old(self).ppu
            }) && final(self).ppu.control.bits == value && final(self).ppu.temp_address
                == (crate::ppu::PPUAddress {
                nametable_x: (value as int % 2) as u8,
                nametable_y: ((value as int / 2) % 2) as u8,
                ..old(self).ppu.temp_address
            }),
            0x2000 <= address < 0x4000 && address as int % 8 == 1 ==> final(self).ppu == (PPU {
                mask: (crate::ppu::PPUMask { bits: value }),
                ..old(self).ppu
            }),
            0x2000 <= address < 0x4000 && address as int % 8 == 2 ==> final(self).ppu == old(self).ppu,
            0x2000 <= address < 0x4000 && address as int % 8 == 3 ==> final(self).ppu == (PPU {
                oam_address: value as usize,
                ..old(self).ppu
            }),
            0x2000 <= address < 0x4000 && address as int % 8 == 4 ==> final(self).ppu == (PPU {
                oams: final(self).ppu.oams,
                oam_address: ((old(self).ppu.oam_address + 1) % 256) as usize,
                ..old(self).ppu
            }) && final(self).ppu.oams.oams@ == old(self).ppu.oams.oams@.update(
                old(self).ppu.oam_address as int / 4,
                crate::ppu::oam_with_byte(
                    old(self).ppu.oams.oams@[old(self).ppu.oam_address as int / 4],
                    old(self).ppu.oam_address as int % 4,
                    value,
                ),
            ),
            0x2000 <= address < 0x4000 && address as int % 8 == 5 ==> final(self).ppu == (PPU {
                address_latch: final(self).ppu.address_latch,
                fine_x: final(self).ppu.fine_x,
                temp_address: final(self).ppu.temp_address,
                ..old(self).ppu
            }) && (old(self).ppu.address_latch is Hi ==> final(self).ppu.address_latch is Lo
                && final(self).ppu.fine_x == value as int % 8 && final(self).ppu.temp_address
                == (crate::ppu::PPUAddress {
                coarse_x: (value / 8) as u8,
                ..old(self).ppu.temp_address
            })) && (old(self).ppu.address_latch is Lo ==> final(self).ppu.address_latch is Hi
                && final(self).ppu.fine_x == old(self).ppu.fine_x && final(self).ppu.temp_address
                == (crate::ppu::PPUAddress {
                fine_y: (value as int % 8) as u8,
                coarse_y: (value / 8) as u8,
                ..old(self).ppu.temp_address
            })),
            0x2000 <= address < 0x4000 && address as int % 8 == 6 ==> final(self).ppu.data_port_view() == crate::ppu::data_port_w2006(
                old(self).ppu.data_port_view(),
                value,
            ) && final(self).ppu == (PPU {
                address_latch: final(self).ppu.address_latch,
                temp_address: final(self).ppu.temp_address,
                vaddress: final(self).ppu.vaddress,
                ..old(self).ppu
            }),
            0x2000 <= address < 0x4000 && address as int % 8 == 7 ==> final(self).ppu.data_port_view() == crate::ppu::data_port_w2007(
                old(self).ppu.data_port_view(),
                old(self).cartridge.hw_mirroring,
                value,
            ) && final(self).ppu == (PPU {
                nametable: final(self).ppu.nametable,
                palette_table: final(self).ppu.palette_table,
                vaddress: final(self).ppu.vaddress,
                ..old(self).ppu
            }) && final(self).cartridge.chr_ram@ == (if old(self).ppu.vaddress.spec_address()
                % 0x4000 < 0x2000 {
                old(self).cartridge.chr_ram@.update(
                    old(self).ppu.vaddress.spec_address() % 0x4000,
                    value,
                )
            } else {
                old(self).cartridge.chr_ram@
            }),
    {
        self.cartridge.write(address, value);
        if self.cartridge.use_cartridge_data() {
            return ;
        }
        if address < 0x2000 {
            self.ram.set(address % 0x800, value);
        } else if address < 0x4000 {
            self.ppu_register_write(address, value);
        } else if address == OAM_DMA_TRIGGER {
            self.oam_dma_page = value;
            self.oam_dma_address = 0;
            self.do_oam_dma = true;
            self.dma_wait = true;
        } else if address == 0x4016 {
            // The strobe line runs to both controller ports.
            self.controller1.write(value);
            self.controller2.write(value);
        } else {
            // Sound registers and the rest of the expansion area are
            // outside this core; writes there are absorbed.
        }
    }

    /// One stolen processor cycle of the sprite-memory block transfer: an
    /// alignment tick first, then a bus read of `(page << 8) | i` on each
    /// even cycle and a sprite-memory write of the carried byte on each odd
    /// one, until all 256 bytes have crossed and the transfer disarms.
    pub fn transfer_oam(&mut self, parity_odd: bool)
        requires
            old(self).wf(),
        ensures
            final(self).wf(),
            final(self).ram@ == old(self).ram@,
            final(self).cartridge.prg_rom@ == old(self).cartridge.prg_rom@,
            final(self).ppu.cycle == old(self).ppu.cycle,
            final(self).ppu.scanline == old(self).ppu.scanline,
            final(self).ppu.done_drawing == old(self).ppu.done_drawing,
            final(self).ppu.call_nmi == old(self).ppu.call_nmi,
            final(self).ppu.odd_frame == old(self).ppu.odd_frame,
            old(self).dma_wait ==> *final(self) == (NesMemoryMapper {
                dma_wait: !parity_odd,
                ..*old(self)
            }),
            !old(self).dma_wait && !parity_odd ==> final(self).oam_dma_address == old(self).oam_dma_address && final(self).oam_dma_page == old(self).oam_dma_page && final(self).do_oam_dma == old(self).do_oam_dma && !final(self).dma_wait && final(self).ppu.oams.oams@ == old(self).ppu.oams.oams@ && final(self).ppu.oam_address == old(self).ppu.oam_address,
            !old(self).dma_wait && !parity_odd && old(self).oam_dma_page < 0x20 ==> *final(self)
                == (NesMemoryMapper {
                dma_data: final(self).dma_data,
                cartridge: final(self).cartridge,
                ..*old(self)
            }) && final(self).dma_data == old(self).ram@[(old(self).oam_dma_page * 256 + old(self).oam_dma_address) as int % 0x800],
            !old(self).dma_wait && parity_odd ==> *final(self) == (NesMemoryMapper {
                ppu: final(self).ppu,
                oam_dma_address: final(self).oam_dma_address,
                do_oam_dma: if old(self).oam_dma_address == 255 {
                    false
                } else {
                    old(self).do_oam_dma
                },
                dma_wait: old(self).oam_dma_address == 255,
                ..*old(self)
            }) && final(self).oam_dma_address == old(self).oam_dma_address as int + 1 - (if old(self).oam_dma_address == 255 {
                256int
            } else {
                0int
            }) && final(self).ppu == (PPU {
                oams: final(self).ppu.oams,
                oam_address: ((old(self).ppu.oam_address + 1) % 256) as usize,
                ..old(self).ppu
            }) && final(self).ppu.oams.oams@ == old(self).ppu.oams.oams@.update(
                old(self).ppu.oam_address as int / 4,
                crate::ppu::oam_with_byte(
                    old(self).ppu.oams.oams@[old(self).ppu.oam_address as int / 4],
                    old(self).ppu.oam_address as int % 4,
                    old(self).dma_data,
                ),
            ),
    {
        if self.dma_wait {
            // Spend the tick; alignment ends on an odd cycle so the first
            // read lands on an even one.
            if parity_odd {
                self.dma_wait = false;
            }
        } else if !parity_odd {
            let address = (self.oam_dma_page as usize) * 256 + (self.oam_dma_address as usize);
            self.dma_data = self.read(address, false);
        } else {
            let oam_address = self.ppu.oam_address;
            let data = self.dma_data;
            self.ppu.write_oam_address(oam_address, data);
            self.ppu.oam_address = (oam_address + 1) % 256;
            self.oam_dma_address = self.oam_dma_address.wrapping_add(1);
            if self.oam_dma_address == 0 {
                self.do_oam_dma = false;
                self.dma_wait = true;
            }
        }
    }
}


/// The byte a processor read returns at each address of the map, in the
/// fabric's current state.
pub open spec fn spec_cpu_value(m: &NesMemoryMapper, a: int) -> u8 {
    if 0 <= a < 0x2000 {
        m.ram@[a % 0x800]
    } else if a < 0x4000 {
        let reg = a % 8;
        if reg == 2 {
            crate::ppu::spec_status_byte(&m.ppu) as u8
        } else if reg == 3 {
            0xffu8
        } else if reg == 4 {
            crate::ppu::oam_byte(m.ppu.oams.oams@, m.ppu.oam_address as int)
        } else if reg == 7 {
            if m.ppu.vaddress.spec_address() % 0x4000 >= 0x3f00 {
                m.ppu.palette_table@[crate::ppu::palette_idx(
                    m.ppu.vaddress.spec_address() % 0x4000,
                )]
            } else {
                m.ppu.data_buffer
            }
        } else {
            0u8
        }
    } else if a == 0x4016 {
        crate::controller::controller_read_value(m.controller1)
    } else if a == 0x4017 {
        crate::controller::controller_read_value(m.controller2)
    } else if a < 0x6000 {
        0u8
    } else if a < 0x8000 {
        m.cartridge.mapper.vram@[a % 0x2000]
    } else if a < 0x10000 {
        m.cartridge.prg_rom@[if m.cartridge.mapper.prg_banks > 1 {
            a % 0x8000
        } else {
            a % 0x4000
        }]
    } else {
        0u8
    }
}

impl Memory for NesMemoryMapper {
    /// The fabric's invariant, as every bus access preserves it.
    open spec fn inv(&self) -> bool {
        self.wf()
    }

    /// The picture unit's frame position and latches: no processor access
    /// moves them, which is what lets the master clock account its frames.
    open spec fn clock_state(&self) -> (int, int, bool, bool, bool) {
        (
            self.ppu.cycle as int,
            self.ppu.scanline as int,
            self.ppu.done_drawing,
            self.ppu.call_nmi,
            self.ppu.odd_frame,
        )
    }

    /// The map's value model, as `spec_cpu_value` spells it out.
    open spec fn value_at(&self, address: int) -> u8 {
        spec_cpu_value(self, address)
    }

    /// Console RAM and the board RAM are the map's ordinary cells.
    open spec fn plain(&self, address: int) -> bool {
        0 <= address < 0x2000 || 0x6000 <= address < 0x8000
    }

    /// The 2 KiB of console RAM answer under every mirror below 0x2000;
    /// everything else stands for itself.
    open spec fn cell(&self, address: int) -> int {
        if 0 <= address < 0x2000 {
            address % 0x800
        } else {
            address
        }
    }

    fn read(&mut self, address: usize, is_read_only: bool) -> u8 {
        if address >= 0x10000 {
            return 0;
        }
        NesMemoryMapper::read(self, address, is_read_only)
    }

    fn write(&mut self, address: usize, value: u8) {
        if address >= 0x10000 {
            return ;
        }
        NesMemoryMapper::write(self, address, value);
    }
}

/// Processor-bus address that triggers the sprite-memory block transfer.
pub const OAM_DMA_TRIGGER: usize = 0x4014;

/// The console: the processor beside the fabric, and the master clock that
/// interleaves them, three picture dots per processor cycle.
pub struct Bus {
    /// The fabric the processor talks to.
    pub memory_mapper: NesMemoryMapper,
    /// The processor.
    pub cpu: CPU,
    /// The master-clock phase countdown.
    pub cycle: u32,
    /// Master ticks since power-on; the picture unit steps on each.
    pub total_cycles: u64,
    /// Processor cycles stolen by sprite-memory block transfers so far.
    pub dma_ticks: u64,
    /// Frames completed through `clock_until_frame_done`.
    pub total_frames: u64,
}

impl Bus {
    /// The structural facts of the console, with the one-access-per-tick
    /// pairing of the processor's counters.
    pub open spec fn wf(&self) -> bool {
        &&& self.memory_mapper.wf()
        &&& self.cpu.accesses == self.cpu.total_cycles
    }

    /// The master-clock bookkeeping: the phase countdown follows the tick
    /// count, and processor cycles plus transfer-stolen cycles account for
    /// exactly every third master tick.
    pub open spec fn master_aligned(&self) -> bool {
        &&& self.cycle == if self.total_cycles % 6 == 0 {
            0int
        } else {
            6 - self.total_cycles % 6
        }
        &&& self.cpu.total_cycles + self.dma_ticks == (self.total_cycles + 2) / 3
    }

    /// A console around a parsed cartridge, at power-on.
    pub fn new(cartridge: Cartridge) -> (r: Bus)
        requires
            cartridge.wf(),
        ensures
            r.wf(),
            r.master_aligned(),
            r.total_cycles == 0,
            r.total_frames == 0,
            r.cpu.total_cycles == 0,
            !r.memory_mapper.ppu.done_drawing,
    {
        Bus {
            memory_mapper: NesMemoryMapper::new(cartridge),
            cpu: CPU::new(),
            cycle: 0,
            total_cycles: 0,
            dma_ticks: 0,
            total_frames: 0,
        }
    }

    /// A console around a raw image: parsing errors pass through.
    pub fn new_from_array(array: &Vec<u8>) -> (r: Result<Bus, NesError>)
        ensures
            r is Ok <==> crate::cartridge::ines_header_valid(array@) && array@.len()
                >= crate::cartridge::ines_needed_len(array@) && crate::cartridge::ines_mapper_id(
                array@,
            ) == 0,
            r is Ok ==> r->Ok_0.wf() && r->Ok_0.master_aligned() && r->Ok_0.total_cycles == 0
                && !r->Ok_0.memory_mapper.ppu.done_drawing && r->Ok_0.total_frames == 0,
    {
        match Cartridge::parse(array) {
            Ok(cart) => Ok(Bus::new(cart)),
            Err(e) => Err(e),
        }
    }

    /// One master tick: the picture unit steps one dot, its interrupt
    /// request is carried to the processor, and on every third tick the
    /// processor either runs one cycle or yields it to a running block
    /// transfer. The counters stay accounted: processor cycles plus stolen
    /// cycles cover exactly every third master tick.
    pub fn clock(&mut self)
        requires
            old(self).wf(),
            old(self).master_aligned(),
            old(self).total_cycles < u64::MAX - 8,
        ensures
            final(self).wf(),
            final(self).master_aligned(),
            final(self).total_cycles == old(self).total_cycles + 1,
            final(self).total_frames == old(self).total_frames,
            final(self).cpu.total_cycles + final(self).dma_ticks == old(self).cpu.total_cycles
                + old(self).dma_ticks + (if old(self).total_cycles % 3 == 0 {
                1int
            } else {
                0int
            }),
            crate::ppu::ppu_pos(&final(self).memory_mapper.ppu) == if old(self).memory_mapper.ppu.scanline == 260 && old(self).memory_mapper.ppu.cycle == 340 {
                0int
            } else if old(self).memory_mapper.ppu.scanline == -1 && old(self).memory_mapper.ppu.cycle == 339 && old(self).memory_mapper.ppu.odd_frame && (old(self).memory_mapper.ppu.mask.bits / 8) % 2 == 1 {
                341int
            } else {
                crate::ppu::ppu_pos(&old(self).memory_mapper.ppu) + 1
            },
            final(self).memory_mapper.ppu.done_drawing == (old(self).memory_mapper.ppu.done_drawing
                || (old(self).memory_mapper.ppu.scanline == 260 && old(self).memory_mapper.ppu.cycle == 340)),
    {
        proof {
            lemma_cpu_share_bound(old(self).total_cycles as int);
            lemma_master_step(old(self).total_cycles as int);
        }
        let mm_ppu = &mut self.memory_mapper.ppu;
        mm_ppu.clock(&mut self.memory_mapper.cartridge);
        if self.memory_mapper.ppu.call_nmi {
            self.memory_mapper.ppu.call_nmi = false;
            self.cpu.nmi();
        }
        if self.cycle == 0 || self.cycle == 3 {
            if self.memory_mapper.do_oam_dma {
                let parity_odd = (self.cpu.total_cycles % 2 == 1) != (self.dma_ticks % 2 == 1);
                self.memory_mapper.transfer_oam(parity_odd);
                self.dma_ticks = self.dma_ticks + 1;
            } else {
                let bus_cpu = &mut self.cpu;
                bus_cpu.clock(&mut self.memory_mapper);
            }
        }
        if self.cycle == 0 {
            self.cycle = 6;
        }
        self.cycle = self.cycle - 1;
        self.total_cycles = self.total_cycles + 1;
    }

    /// Run master ticks until the picture unit finishes its frame, and
    /// consume the frame latch: afterwards the unit stands at the first
    /// dot of the pre-render line with the latch down, and one more frame
    /// is on the count.
    pub fn clock_until_frame_done(&mut self)
        requires
            old(self).wf(),
            old(self).master_aligned(),
            !old(self).memory_mapper.ppu.done_drawing,
            old(self).total_cycles < u64::MAX - 200000,
            old(self).total_frames < u64::MAX,
        ensures
            final(self).wf(),
            final(self).master_aligned(),
            !final(self).memory_mapper.ppu.done_drawing,
            crate::ppu::ppu_pos(&final(self).memory_mapper.ppu) == 0,
            final(self).total_frames == old(self).total_frames + 1,
            final(self).total_cycles <= old(self).total_cycles + 89342,
    {
        let ghost start = *old(self);
        proof {
            lemma_ppu_pos_bounds(&self.memory_mapper.ppu);
        }
        loop
            invariant_except_break
                !self.memory_mapper.ppu.done_drawing,
                self.total_frames == start.total_frames,
                self.total_cycles - start.total_cycles <= crate::ppu::ppu_pos(
                    &self.memory_mapper.ppu,
                ) - crate::ppu::ppu_pos(&start.memory_mapper.ppu),
                crate::ppu::ppu_pos(&start.memory_mapper.ppu) <= crate::ppu::ppu_pos(
                    &self.memory_mapper.ppu,
                ),
            invariant
                self.wf(),
                self.master_aligned(),
                start.total_frames < u64::MAX,
                start.total_cycles < u64::MAX - 200000,
                0 <= crate::ppu::ppu_pos(&start.memory_mapper.ppu) < 89342,
                0 <= crate::ppu::ppu_pos(&self.memory_mapper.ppu) < 89342,
            ensures
                self.wf(),
                self.master_aligned(),
                !self.memory_mapper.ppu.done_drawing,
                crate::ppu::ppu_pos(&self.memory_mapper.ppu) == 0,
                self.total_frames == start.total_frames + 1,
                self.total_cycles <= start.total_cycles + 89342,
            decreases 89342 - crate::ppu::ppu_pos(&self.memory_mapper.ppu),
        {
            proof {
                lemma_ppu_pos_bounds(&self.memory_mapper.ppu);
            }
            self.clock();
            if self.memory_mapper.ppu.done_drawing {
                self.memory_mapper.ppu.done_drawing = false;
                self.total_frames = self.total_frames + 1;
                break ;
            }
            proof {
                lemma_ppu_pos_bounds(&self.memory_mapper.ppu);
            }
        }
    }

    /// Request a processor reset.
    pub fn reset(&mut self)
        ensures
            final(self).cpu.interrupt_type.reset,
            final(self).cpu.state is FetchOpcode,
            *final(self) == (Bus { cpu: final(self).cpu, ..*old(self) }),
            final(self).cpu == (CPU {
                interrupt_type: final(self).cpu.interrupt_type,
                state: final(self).cpu.state,
                ..old(self).cpu
            }),
    {
        self.cpu.reset();
    }

    /// Borrow the fabric, for direct peeks and pokes.
    pub fn memory(&mut self) -> (r: &mut NesMemoryMapper)
        ensures
            *r == old(self).memory_mapper,
            *final(self) == (Bus { memory_mapper: *final(r), ..*old(self) }),
    {
        &mut self.memory_mapper
    }

    /// Press or release a button on one of the two controllers.
    pub fn press_controller_button(&mut self, controller_id: usize, button: u8, state: bool)
        requires
            controller_id < 2,
        ensures
            controller_id == 0 ==> *final(self) == (Bus {
                memory_mapper: final(self).memory_mapper,
                ..*old(self)
            }) && final(self).memory_mapper == (NesMemoryMapper {
                controller1: final(self).memory_mapper.controller1,
                ..old(self).memory_mapper
            }) && final(self).memory_mapper.controller1.button_status == (if state {
                old(self).memory_mapper.controller1.button_status | button
            } else {
                old(self).memory_mapper.controller1.button_status & !button
            }),
            controller_id == 1 ==> *final(self) == (Bus {
                memory_mapper: final(self).memory_mapper,
                ..*old(self)
            }) && final(self).memory_mapper == (NesMemoryMapper {
                controller2: final(self).memory_mapper.controller2,
                ..old(self).memory_mapper
            }) && final(self).memory_mapper.controller2.button_status == (if state {
                old(self).memory_mapper.controller2.button_status | button
            } else {
                old(self).memory_mapper.controller2.button_status & !button
            }),
    {
        if controller_id == 0 {
            self.memory_mapper.controller1.set_button_status(button, state);
        } else {
            self.memory_mapper.controller2.set_button_status(button, state);
        }
    }

    /// Processor cycles since power-on.
    pub fn cpu_total_cycles(&self) -> (r: u64)
        ensures
            r == self.cpu.total_cycles,
    {
        self.cpu.total_cycles
    }

    /// Master (picture) ticks since power-on.
    pub fn ppu_total_cycles(&self) -> (r: u64)
        ensures
            r == self.total_cycles,
    {
        self.total_cycles
    }
}


/// How one master tick moves the clock bookkeeping: the rounded-up third
/// grows exactly on the ticks the processor is offered, and the six-phase
/// position steps around.
proof fn lemma_master_step(t: int)
    requires
        t >= 0,
    ensures
        (t + 3) / 3 == (t + 2) / 3 + (if t % 3 == 0 {
            1int
        } else {
            0int
        }),
        (t + 1) % 6 == if t % 6 == 5 {
            0int
        } else {
            t % 6 + 1
        },
        (t % 6 == 0 || t % 6 == 3) == (t % 3 == 0),
{
    vstd::arithmetic::div_mod::lemma_fundamental_div_mod(t, 3);
    vstd::arithmetic::div_mod::lemma_fundamental_div_mod(t, 6);
    let k = t / 3;
    if t % 3 == 0 {
        vstd::arithmetic::div_mod::lemma_fundamental_div_mod_converse(t + 2, 3, k, 2);
        vstd::arithmetic::div_mod::lemma_fundamental_div_mod_converse(t + 3, 3, k + 1, 0);
    } else if t % 3 == 1 {
        vstd::arithmetic::div_mod::lemma_fundamental_div_mod_converse(t + 2, 3, k + 1, 0);
        vstd::arithmetic::div_mod::lemma_fundamental_div_mod_converse(t + 3, 3, k + 1, 1);
    } else {
        vstd::arithmetic::div_mod::lemma_fundamental_div_mod_converse(t + 2, 3, k + 1, 1);
        vstd::arithmetic::div_mod::lemma_fundamental_div_mod_converse(t + 3, 3, k + 1, 2);
    }
    let j = t / 6;
    if t % 6 == 5 {
        vstd::arithmetic::div_mod::lemma_fundamental_div_mod_converse(t + 1, 6, j + 1, 0);
    } else {
        vstd::arithmetic::div_mod::lemma_fundamental_div_mod_converse(t + 1, 6, j, t % 6 + 1);
    }
    assert(t == 6 * j + t % 6);
    assert(t % 3 == (6 * j + t % 6) % 3);
    vstd::arithmetic::div_mod::lemma_mod_multiples_vanish(2 * j, t % 6, 3);
}

/// The processor's share of the master clock is bounded by it: with `t`
/// master ticks on the count, the processor and the block transfers have
/// together consumed `(t + 2) / 3` cycles, which never exceeds `t` and
/// trails it by less than a factor of three.
pub proof fn lemma_cpu_share_bound(t: int)
    requires
        t >= 0,
    ensures
        (t + 2) / 3 <= t,
        3 * ((t + 2) / 3) <= t + 2,
        t <= 3 * ((t + 2) / 3),
{
    vstd::arithmetic::div_mod::lemma_fundamental_div_mod(t + 2, 3);
}

/// The cycle ratio of the master clock. In any aligned console the
/// processor's cycle count plus the cycles stolen by block transfers is
/// exactly a third of the master ticks, rounded up; the picture unit
/// therefore runs exactly three dots per processor-or-transfer cycle.
pub proof fn lemma_master_clock_ratio(b: &Bus)
    requires
        b.master_aligned(),
    ensures
        3 * (b.cpu.total_cycles + b.dma_ticks) <= b.total_cycles + 2,
        b.total_cycles <= 3 * (b.cpu.total_cycles + b.dma_ticks),
{
    lemma_cpu_share_bound(b.total_cycles as int);
}

/// A picture unit within its counters' ranges stands at one of the frame's
/// 89342 dots.
pub proof fn lemma_ppu_pos_bounds(p: &PPU)
    requires
        p.wf(),
    ensures
        0 <= crate::ppu::ppu_pos(p) < 89342,
{
}

} // verus!
