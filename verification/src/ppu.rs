//! The picture processing unit: nametable and palette memory behind the
//! data-port registers, the loopy scroll address pair, sprite memory, and
//! the dot-by-dot rendering pipeline that fills the frame buffer.

use vstd::prelude::*;
use crate::cartridge::{Cartridge, MirroringMode};
use crate::utils::{PPUColor, Screen, ppu_color};

verus! {

/// Register index: control.
pub const PPUCTRL: usize = 0x00;
/// Register index: mask.
pub const PPUMASK: usize = 0x01;
/// Register index: status.
pub const PPUSTATUS: usize = 0x02;
/// Register index: sprite-memory address.
pub const OAMADDR: usize = 0x03;
/// Register index: sprite-memory data.
pub const OAMDATA: usize = 0x04;
/// Register index: scroll.
pub const PPUSCROLL: usize = 0x05;
/// Register index: data-port address.
pub const PPUADDR: usize = 0x06;
/// Register index: data port.
pub const PPUDATA: usize = 0x07;
/// Processor-bus address that triggers the sprite-memory block transfer.
pub const OAMDMA: usize = 0x4014;

/// Frame width in pixels.
pub const NES_WIDTH_SIZE: usize = 256;
/// Frame height in pixels.
pub const NES_HEIGHT_SIZE: usize = 240;

/// Control bit: raise the non-maskable interrupt at vertical blank.
pub const CTRL_ENABLE_NMI: u8 = 0x80;
/// Control bit: sprites are eight by sixteen pixels.
pub const CTRL_SPRITE_SIZE: u8 = 0x20;
/// Control bit: background patterns come from the second table.
pub const CTRL_BG_PATTERN_TABLE: u8 = 0x10;
/// Control bit: sprite patterns come from the second table.
pub const CTRL_SPRITE_PATTERN_TABLE: u8 = 0x08;
/// Control bit: the data port steps by thirty-two instead of one.
pub const CTRL_VRAM_INCREMENT_MODE: u8 = 0x04;
/// Control bit: vertical half of the base nametable.
pub const CTRL_NAMETABLE_Y: u8 = 0x02;
/// Control bit: horizontal half of the base nametable.
pub const CTRL_NAMETABLE_X: u8 = 0x01;

/// Mask bit: show the background.
pub const MASK_SHOW_BG: u8 = 0x08;
/// Mask bit: show sprites.
pub const MASK_SHOW_SPRITE: u8 = 0x10;
/// Mask bit: show the background in the leftmost eight pixels.
pub const MASK_SHOW_BG_LEFT: u8 = 0x02;
/// Mask bit: show sprites in the leftmost eight pixels.
pub const MASK_SHOW_SPRITE_LEFT: u8 = 0x04;

/// The loopy scroll and data-port address: fine Y, the nametable pair, and
/// the coarse tile coordinates, kept as separate fields of the fifteen-bit
/// word they spell.
#[derive(Clone, Copy, PartialEq, Eq, Structural, Debug)]
pub struct PPUAddress {
    /// Tile column, five bits.
    pub coarse_x: u8,
    /// Tile row, five bits.
    pub coarse_y: u8,
    /// Horizontal nametable select, one bit.
    pub nametable_x: u8,
    /// Vertical nametable select, one bit.
    pub nametable_y: u8,
    /// Row within the tile, three bits.
    pub fine_y: u8,
}

impl PPUAddress {
    /// Every field within the width of its bit group.
    pub open spec fn wf(&self) -> bool {
        self.coarse_x < 32 && self.coarse_y < 32 && self.nametable_x < 2 && self.nametable_y < 2
            && self.fine_y < 8
    }

    /// The fifteen-bit word the fields spell.
    pub open spec fn spec_address(&self) -> int {
        self.fine_y * 0x1000 + self.nametable_y * 0x800 + self.nametable_x * 0x400 + self.coarse_y
            * 32 + self.coarse_x
    }

    /// The zero address.
    pub fn new() -> (r: PPUAddress)
        ensures
            r.wf(),
            r.spec_address() == 0,
    {
        PPUAddress { coarse_x: 0, coarse_y: 0, nametable_x: 0, nametable_y: 0, fine_y: 0 }
    }

    /// The packed fifteen-bit word.
    pub fn address(&self) -> (r: usize)
        requires
            self.wf(),
        ensures
            r == self.spec_address(),
            r < 0x8000,
    {
        (self.fine_y as usize) * 0x1000 + (self.nametable_y as usize) * 0x800 + (self.nametable_x
            as usize) * 0x400 + (self.coarse_y as usize) * 32 + (self.coarse_x as usize)
    }

    /// Unpack a word into the fields, dropping anything above bit fourteen.
    pub fn set_address(&mut self, address: usize)
        ensures
            final(self).wf(),
            final(self).spec_address() == address as int % 0x8000,
            final(self).coarse_x == address as int % 32,
            final(self).coarse_y == (address as int / 32) % 32,
            final(self).nametable_x == (address as int / 0x400) % 2,
            final(self).nametable_y == (address as int / 0x800) % 2,
            final(self).fine_y == (address as int / 0x1000) % 8,
    {
        self.coarse_x = (address % 32) as u8;
        self.coarse_y = ((address / 32) % 32) as u8;
        self.nametable_x = ((address / 0x400) % 2) as u8;
        self.nametable_y = ((address / 0x800) % 2) as u8;
        self.fine_y = ((address / 0x1000) % 8) as u8;
        proof {
            lemma_loopy_pack(address);
        }
    }

    /// Tile column.
    pub fn coarse_x(&self) -> (r: usize)
        ensures
            r == self.coarse_x,
    {
        self.coarse_x as usize
    }

    /// Set the tile column from the low five bits of `value`.
    pub fn set_coarse_x(&mut self, value: usize)
        ensures
            *final(self) == (PPUAddress { coarse_x: (value as int % 32) as u8, ..*old(self) }),
    {
        self.coarse_x = (value % 32) as u8;
    }

    /// Add to the tile column, wrapping within its five bits.
    pub fn add_coarse_x(&mut self, value: usize)
        requires
            old(self).wf(),
        ensures
            *final(self) == (PPUAddress {
                coarse_x: ((old(self).coarse_x + value) % 32) as u8,
                ..*old(self)
            }),
    {
        proof {
            vstd::arithmetic::div_mod::lemma_add_mod_noop(
                old(self).coarse_x as int,
                value as int,
                32,
            );
        }
        self.coarse_x = ((self.coarse_x as usize + value % 32) % 32) as u8;
    }

    /// Tile row.
    pub fn coarse_y(&self) -> (r: usize)
        ensures
            r == self.coarse_y,
    {
        self.coarse_y as usize
    }

    /// Set the tile row from the low five bits of `value`.
    pub fn set_coarse_y(&mut self, value: usize)
        ensures
            *final(self) == (PPUAddress { coarse_y: (value as int % 32) as u8, ..*old(self) }),
    {
        self.coarse_y = (value % 32) as u8;
    }

    /// Add to the tile row, wrapping within its five bits.
    pub fn add_coarse_y(&mut self, value: usize)
        requires
            old(self).wf(),
        ensures
            *final(self) == (PPUAddress {
                coarse_y: ((old(self).coarse_y + value) % 32) as u8,
                ..*old(self)
            }),
    {
        proof {
            vstd::arithmetic::div_mod::lemma_add_mod_noop(
                old(self).coarse_y as int,
                value as int,
                32,
            );
        }
        self.coarse_y = ((self.coarse_y as usize + value % 32) % 32) as u8;
    }

    /// Horizontal nametable select.
    pub fn nametable_select_x(&self) -> (r: usize)
        ensures
            r == self.nametable_x,
    {
        self.nametable_x as usize
    }

    /// Set the horizontal nametable select from bit zero of `value`.
    pub fn set_nametable_select_x(&mut self, value: usize)
        ensures
            *final(self) == (PPUAddress { nametable_x: (value as int % 2) as u8, ..*old(self) }),
    {
        self.nametable_x = (value % 2) as u8;
    }

    /// Flip to the other horizontal nametable.
    pub fn toggle_nametable_select_x(&mut self)
        ensures
            *final(self) == (PPUAddress {
                nametable_x: if old(self).nametable_x == 0 {
                    1u8
                } else {
                    0u8
                },
                ..*old(self)
            }),
    {
        self.nametable_x = if self.nametable_x == 0 {
            1
        } else {
            0
        };
    }

    /// Vertical nametable select.
    pub fn nametable_select_y(&self) -> (r: usize)
        ensures
            r == self.nametable_y,
    {
        self.nametable_y as usize
    }

    /// Set the vertical nametable select from bit zero of `value`.
    pub fn set_nametable_select_y(&mut self, value: usize)
        ensures
            *final(self) == (PPUAddress { nametable_y: (value as int % 2) as u8, ..*old(self) }),
    {
        self.nametable_y = (value % 2) as u8;
    }

    /// Flip to the other vertical nametable.
    pub fn toggle_nametable_select_y(&mut self)
        ensures
            *final(self) == (PPUAddress {
                nametable_y: if old(self).nametable_y == 0 {
                    1u8
                } else {
                    0u8
                },
                ..*old(self)
            }),
    {
        self.nametable_y = if self.nametable_y == 0 {
            1
        } else {
            0
        };
    }

    /// Row within the tile.
    pub fn fine_y(&self) -> (r: usize)
        ensures
            r == self.fine_y,
    {
        self.fine_y as usize
    }

    /// Set the row within the tile from the low three bits of `value`.
    pub fn set_fine_y(&mut self, value: usize)
        ensures
            *final(self) == (PPUAddress { fine_y: (value as int % 8) as u8, ..*old(self) }),
    {
        self.fine_y = (value % 8) as u8;
    }

    /// Step one tile to the right, crossing into the other horizontal
    /// nametable past the last column.
    pub fn increase_coarse_x(&mut self)
        requires
            old(self).wf(),
        ensures
            final(self).wf(),
            *final(self) == if old(self).coarse_x == 31 {
                (PPUAddress {
                    coarse_x: 0u8,
                    nametable_x: if old(self).nametable_x == 0 {
                        1u8
                    } else {
                        0u8
                    },
                    ..*old(self)
                })
            } else {
                (PPUAddress { coarse_x: (old(self).coarse_x + 1) as u8, ..*old(self) })
            },
    {
        if self.coarse_x() == 31 {
            self.set_coarse_x(0);
            self.toggle_nametable_select_x();
        } else {
            self.coarse_x = self.coarse_x + 1;
        }
    }

    /// Step one row down: fine Y first, then the tile row, crossing into
    /// the other vertical nametable past row twenty-nine; a row written
    /// into the attribute area wraps without crossing.
    pub fn increase_coarse_y(&mut self)
        requires
            old(self).wf(),
        ensures
            final(self).wf(),
            *final(self) == if old(self).fine_y < 7 {
                (PPUAddress { fine_y: (old(self).fine_y + 1) as u8, ..*old(self) })
            } else if old(self).coarse_y == 29 {
                (PPUAddress {
                    fine_y: 0u8,
                    coarse_y: 0u8,
                    nametable_y: if old(self).nametable_y == 0 {
                        1u8
                    } else {
                        0u8
                    },
                    ..*old(self)
                })
            } else if old(self).coarse_y == 31 {
                (PPUAddress { fine_y: 0u8, coarse_y: 0u8, ..*old(self) })
            } else {
                (PPUAddress {
                    fine_y: 0u8,
                    coarse_y: (old(self).coarse_y + 1) as u8,
                    ..*old(self)
                })
            },
    {
        if self.fine_y < 7 {
            self.fine_y = self.fine_y + 1;
        } else {
            self.fine_y = 0;
            if self.coarse_y == 29 {
                self.coarse_y = 0;
                self.toggle_nametable_select_y();
            } else if self.coarse_y == 31 {
                self.coarse_y = 0;
            } else {
                self.coarse_y = self.coarse_y + 1;
            }
        }
    }
}

/// The positional identity behind packing and unpacking the loopy word.
proof fn lemma_loopy_pack(a: usize)
    by (bit_vector)
    ensures
        ((a / 0x1000) % 8) * 0x1000 + ((a / 0x800) % 2) * 0x800 + ((a / 0x400) % 2) * 0x400 + ((a
            / 32) % 32) * 32 + a % 32 == a % 0x8000,
{
}

/// The control register, written through index zero.
#[derive(Clone, Copy, PartialEq, Eq, Structural, Debug)]
pub struct PPUControl {
    /// The raw byte, tested against the `CTRL_*` bits.
    pub bits: u8,
}

impl PPUControl {
    /// All bits clear.
    pub fn empty() -> (r: PPUControl)
        ensures
            r.bits == 0,
    {
        PPUControl { bits: 0 }
    }

    /// Whether vertical blank raises the non-maskable interrupt.
    pub fn enable_nmi(&self) -> (r: bool)
        ensures
            r == ((self.bits / 0x80) % 2 == 1),
    {
        (self.bits / 0x80) % 2 == 1
    }

    /// Whether sprites are eight by sixteen pixels.
    pub fn sprite_size_16(&self) -> (r: bool)
        ensures
            r == ((self.bits / 0x20) % 2 == 1),
    {
        (self.bits / 0x20) % 2 == 1
    }

    /// Whether background patterns come from the second table.
    pub fn bg_pattern_table(&self) -> (r: bool)
        ensures
            r == ((self.bits / 0x10) % 2 == 1),
    {
        (self.bits / 0x10) % 2 == 1
    }

    /// Whether sprite patterns come from the second table.
    pub fn sprite_pattern_table(&self) -> (r: bool)
        ensures
            r == ((self.bits / 0x08) % 2 == 1),
    {
        (self.bits / 0x08) % 2 == 1
    }

    /// Whether the data port steps by thirty-two.
    pub fn increment_32(&self) -> (r: bool)
        ensures
            r == ((self.bits / 0x04) % 2 == 1),
    {
        (self.bits / 0x04) % 2 == 1
    }

    /// The two base-nametable bits.
    pub fn base_nametable_address(&self) -> (r: u8)
        ensures
            r == self.bits % 4,
    {
        self.bits % 4
    }

    /// Replace the two base-nametable bits.
    pub fn set_base_nametable_address(&mut self, value: u8)
        ensures
            final(self).bits == old(self).bits - old(self).bits % 4 + value % 4,
    {
        self.bits = self.bits - self.bits % 4 + value % 4;
    }
}

/// The mask register, written through index one.
#[derive(Clone, Copy, PartialEq, Eq, Structural, Debug)]
pub struct PPUMask {
    /// The raw byte, tested against the `MASK_*` bits.
    pub bits: u8,
}

impl PPUMask {
    /// All bits clear: rendering fully off.
    pub fn empty() -> (r: PPUMask)
        ensures
            r.bits == 0,
    {
        PPUMask { bits: 0 }
    }

    /// Whether the background layer is drawn.
    pub fn is_render_bg(&self) -> (r: bool)
        ensures
            r == ((self.bits / 0x08) % 2 == 1),
    {
        (self.bits / 0x08) % 2 == 1
    }

    /// Whether the sprite layer is drawn.
    pub fn is_render_sprite(&self) -> (r: bool)
        ensures
            r == ((self.bits / 0x10) % 2 == 1),
    {
        (self.bits / 0x10) % 2 == 1
    }

    /// Whether any layer is drawn; scroll counters only advance then.
    pub fn is_render_something(&self) -> (r: bool)
        ensures
            r == ((self.bits / 0x08) % 2 == 1 || (self.bits / 0x10) % 2 == 1),
    {
        self.is_render_bg() || self.is_render_sprite()
    }

    /// Whether either layer is drawn in the leftmost eight pixels.
    pub fn is_render_left(&self) -> (r: bool)
        ensures
            r == ((self.bits / 0x02) % 2 == 1 || (self.bits / 0x04) % 2 == 1),
    {
        (self.bits / 0x02) % 2 == 1 || (self.bits / 0x04) % 2 == 1
    }
}

/// Which half of a two-write register pair comes next.
#[derive(Clone, Copy, PartialEq, Eq, Structural, Debug)]
pub enum AddressLatch {
    Lo,
    Hi,
}

/// A pair of sixteen-bit shift registers holding the two bit planes of a
/// pattern row.
#[derive(Clone, Copy, PartialEq, Eq, Structural, Debug)]
pub struct ShiftRegister16 {
    /// The low bit plane.
    pub lo: u16,
    /// The high bit plane.
    pub hi: u16,
}

impl ShiftRegister16 {
    /// Both planes clear.
    pub fn new() -> (r: ShiftRegister16)
        ensures
            r.lo == 0 && r.hi == 0,
    {
        ShiftRegister16 { lo: 0, hi: 0 }
    }

    /// The two-bit pixel at `index` places below the top bit: the selected
    /// high-plane bit over the selected low-plane bit.
    pub fn get(&self, index: usize) -> (r: usize)
        requires
            index <= 15,
        ensures
            r == (if self.hi & (0x8000u16 >> (index as u32)) > 0 {
                2int
            } else {
                0int
            }) + (if self.lo & (0x8000u16 >> (index as u32)) > 0 {
                1int
            } else {
                0int
            }),
            r <= 3,
    {
        let bitmux: u16 = 0x8000 >> (index as u32);
        let lo: usize = if (self.lo & bitmux) > 0 {
            1
        } else {
            0
        };
        let hi: usize = if (self.hi & bitmux) > 0 {
            1
        } else {
            0
        };
        hi * 2 + lo
    }

    /// Move both planes up one bit.
    pub fn shift(&mut self)
        ensures
            final(self).lo == (old(self).lo * 2) % 0x10000,
            final(self).hi == (old(self).hi * 2) % 0x10000,
    {
        self.lo = ((self.lo as u32 * 2) % 0x10000) as u16;
        self.hi = ((self.hi as u32 * 2) % 0x10000) as u16;
    }

    /// Reload the low bit plane's bottom byte.
    pub fn load_lo(&mut self, value: u8)
        ensures
            final(self).lo == (old(self).lo / 256) * 256 + value,
            final(self).hi == old(self).hi,
    {
        self.lo = (self.lo / 256) * 256 + (value as u16);
    }

    /// Reload the high bit plane's bottom byte.
    pub fn load_hi(&mut self, value: u8)
        ensures
            final(self).hi == (old(self).hi / 256) * 256 + value,
            final(self).lo == old(self).lo,
    {
        self.hi = (self.hi / 256) * 256 + (value as u16);
    }
}

/// One sprite entry: its top row, tile, attributes, and left column.
#[derive(Clone, Copy, PartialEq, Eq, Structural, Debug)]
pub struct OAM {
    /// Top row of the sprite.
    pub y: u8,
    /// Tile number.
    pub id: u8,
    /// Palette, priority and flip attributes.
    pub attr: u8,
    /// Left column of the sprite.
    pub x: u8,
}

impl OAM {
    /// The idle entry: all bytes set, parking the sprite off screen.
    pub fn new() -> (r: OAM)
        ensures
            r.y == 0xff && r.id == 0xff && r.attr == 0xff && r.x == 0xff,
    {
        OAM { y: 0xff, id: 0xff, attr: 0xff, x: 0xff }
    }

    /// Park the sprite off screen again.
    pub fn reset(&mut self)
        ensures
            final(self).y == 0xff && final(self).id == 0xff && final(self).attr == 0xff && final(self).x == 0xff,
    {
        self.y = 0xff;
        self.id = 0xff;
        self.attr = 0xff;
        self.x = 0xff;
    }
}

/// The byte at offset `i` of a sprite table laid out four bytes per entry.
pub open spec fn oam_byte(s: Seq<OAM>, i: int) -> u8 {
    let o = s[i / 4];
    if i % 4 == 0 {
        o.y
    } else if i % 4 == 1 {
        o.id
    } else if i % 4 == 2 {
        o.attr
    } else {
        o.x
    }
}

/// A sprite table: a run of entries addressable as sprites or as bytes.
pub struct OAMS {
    /// The entries.
    pub oams: Vec<OAM>,
}

impl OAMS {
    /// A table of `size` idle entries.
    pub fn new(size: usize) -> (r: OAMS)
        ensures
            r.oams@.len() == size,
            forall|i: int| 0 <= i < size ==> r.oams@[i] == (OAM {
                y: 0xffu8,
                id: 0xffu8,
                attr: 0xffu8,
                x: 0xffu8,
            }),
    {
        let mut oams: Vec<OAM> = Vec::new();
        let mut i: usize = 0;
        while i < size
            invariant
                i <= size,
                oams@.len() == i,
                forall|j: int| 0 <= j < i ==> oams@[j] == (OAM {
                    y: 0xffu8,
                    id: 0xffu8,
                    attr: 0xffu8,
                    x: 0xffu8,
                }),
            decreases size - i,
        {
            oams.push(OAM::new());
            i = i + 1;
        }
        OAMS { oams }
    }

    /// The entry at `index`.
    pub fn get(&self, index: usize) -> (r: OAM)
        requires
            index < self.oams@.len(),
        ensures
            r == self.oams@[index as int],
    {
        self.oams[index]
    }

    /// Replace the entry at `index`.
    pub fn set(&mut self, index: usize, entry: OAM)
        requires
            index < old(self).oams@.len(),
        ensures
            final(self).oams@ == old(self).oams@.update(index as int, entry),
    {
        self.oams.set(index, entry);
    }

    /// Read the table as bytes, four per entry.
    pub fn read_byte(&self, index: usize) -> (r: u8)
        requires
            index < 4 * self.oams@.len(),
        ensures
            r == oam_byte(self.oams@, index as int),
    {
        let entry = self.oams[index / 4];
        match index % 4 {
            0 => entry.y,
            1 => entry.id,
            2 => entry.attr,
            _ => entry.x,
        }
    }

    /// Write the table as bytes, four per entry.
    pub fn write_byte(&mut self, index: usize, value: u8)
        requires
            index < 4 * old(self).oams@.len(),
        ensures
            final(self).oams@.len() == old(self).oams@.len(),
            oam_byte(final(self).oams@, index as int) == value,
            forall|j: int|
                0 <= j < 4 * old(self).oams@.len() && j != index ==> oam_byte(
                    final(self).oams@,
                    j,
                ) == oam_byte(old(self).oams@, j),
            final(self).oams@ == old(self).oams@.update(
                index as int / 4,
                oam_with_byte(old(self).oams@[index as int / 4], index as int % 4, value),
            ),
    {
        let mut entry = self.oams[index / 4];
        match index % 4 {
            0 => {
                entry.y = value;
            },
            1 => {
                entry.id = value;
            },
            2 => {
                entry.attr = value;
            },
            _ => {
                entry.x = value;
            },
        }
        self.oams.set(index / 4, entry);
        proof {
            let news = final(self).oams@;
            let olds = old(self).oams@;
            assert forall|j: int|
                0 <= j < 4 * olds.len() && j != index implies oam_byte(news, j) == oam_byte(
                olds,
                j,
            ) by {
                if 0 <= j < 4 * olds.len() && j != index {
                    assert(j / 4 == index as int / 4 ==> j % 4 != index as int % 4) by {
                        vstd::arithmetic::div_mod::lemma_fundamental_div_mod(j, 4);
                        vstd::arithmetic::div_mod::lemma_fundamental_div_mod(index as int, 4);
                    }
                }
            }
        }
    }

    /// Park every sprite off screen.
    pub fn reset(&mut self)
        ensures
            final(self).oams@.len() == old(self).oams@.len(),
            forall|i: int|
                0 <= i < final(self).oams@.len() ==> final(self).oams@[i] == (OAM {
                    y: 0xffu8,
                    id: 0xffu8,
                    attr: 0xffu8,
                    x: 0xffu8,
                }),
    {
        let len = self.oams.len();
        let mut i: usize = 0;
        while i < len
            invariant
                i <= len,
                self.oams@.len() == len,
                forall|j: int| 0 <= j < i ==> self.oams@[j] == (OAM {
                    y: 0xffu8,
                    id: 0xffu8,
                    attr: 0xffu8,
                    x: 0xffu8,
                }),
            decreases len - i,
        {
            self.oams.set(i, OAM::new());
            i = i + 1;
        }
    }
}

/// An entry with one of its four bytes replaced.
pub open spec fn oam_with_byte(o: OAM, which: int, value: u8) -> OAM {
    if which == 0 {
        OAM { y: value, ..o }
    } else if which == 1 {
        OAM { id: value, ..o }
    } else if which == 2 {
        OAM { attr: value, ..o }
    } else {
        OAM { x: value, ..o }
    }
}

/// The palette cell an address selects: the low five bits, with the four
/// sprite-transparent entries folded onto their background twins.
pub open spec fn palette_idx(a: int) -> int {
    let i = a % 32;
    if i == 16 {
        0
    } else if i == 20 {
        4
    } else if i == 24 {
        8
    } else if i == 28 {
        12
    } else {
        i
    }
}

/// The cell of the two-nametable memory an address selects under a
/// mirroring mode; `Hardware` and `SingleScreen` fold everything onto the
/// first table (for `Hardware` the value is unused: such reads return
/// zero).
pub open spec fn nt_index(m: MirroringMode, a: int) -> int {
    let na = a % 0x1000;
    let bank: int = if m is Horizontal {
        na / 0x800
    } else if m is Vertical {
        (na / 0x400) % 2
    } else {
        0
    };
    bank * 0x400 + na % 0x400
}

/// What the data port sees of the unit: the write latch, the two loopy
/// words, the read buffer, the increment width, and the two memories the
/// port can reach.
pub struct DataPortView {
    /// The next half the address pair expects is the high one.
    pub latch_hi: bool,
    /// The staging loopy word.
    pub taddr: int,
    /// The live loopy word the port reads and writes through.
    pub vaddr: int,
    /// The delayed-read buffer.
    pub buffer: u8,
    /// Whether the port steps by thirty-two.
    pub increment32: bool,
    /// The nametable memory.
    pub nametable: Seq<u8>,
    /// The palette memory.
    pub palette: Seq<u8>,
}

/// One write to the address pair: the first write replaces the high six
/// bits of the staging word, the second replaces the low byte and copies
/// the whole word into the live address.
pub open spec fn data_port_w2006(p: DataPortView, value: u8) -> DataPortView {
    if p.latch_hi {
        DataPortView { latch_hi: false, taddr: (value % 64) * 256 + p.taddr % 256, ..p }
    } else {
        let t = p.taddr - p.taddr % 256 + value;
        DataPortView { latch_hi: true, taddr: t, vaddr: t, ..p }
    }
}

/// One write through the data port: it lands in the nametable or palette
/// the live address selects (pattern addresses belong to the cartridge),
/// and the address steps on.
pub open spec fn data_port_w2007(p: DataPortView, m: MirroringMode, value: u8) -> DataPortView {
    let inc: int = if p.increment32 {
        32
    } else {
        1
    };
    let v2 = (p.vaddr + inc) % 0x8000;
    let a = p.vaddr % 0x4000;
    if a < 0x2000 {
        DataPortView { vaddr: v2, ..p }
    } else if a < 0x3f00 {
        if m is Hardware {
            DataPortView { vaddr: v2, ..p }
        } else {
            DataPortView { vaddr: v2, nametable: p.nametable.update(nt_index(m, a), value), ..p }
        }
    } else {
        DataPortView { vaddr: v2, palette: p.palette.update(palette_idx(a), value), ..p }
    }
}

/// One read through the data port: palette cells answer at once while the
/// buffer catches the nametable byte underneath; everything else answers
/// from the buffer, which refills from the selected memory. The address
/// steps on either way.
pub open spec fn data_port_r2007(p: DataPortView, m: MirroringMode, chr: Seq<u8>) -> (
    DataPortView,
    u8,
) {
    let inc: int = if p.increment32 {
        32
    } else {
        1
    };
    let v2 = (p.vaddr + inc) % 0x8000;
    let a = p.vaddr % 0x4000;
    if a >= 0x3f00 {
        let value = p.palette[palette_idx(a)];
        let under: u8 = if m is Hardware {
            0u8
        } else {
            p.nametable[nt_index(m, a - 0x1000)]
        };
        (DataPortView { vaddr: v2, buffer: under, ..p }, value)
    } else {
        let fresh: u8 = if a < 0x2000 {
            chr[a]
        } else if m is Hardware {
            0u8
        } else {
            p.nametable[nt_index(m, a)]
        };
        (DataPortView { vaddr: v2, buffer: fresh, ..p }, p.buffer)
    }
}

/// The character memory the picture bus reads: ROM when banks are present,
/// board RAM otherwise.
pub open spec fn chr_view(c: &Cartridge) -> Seq<u8> {
    if c.n_chr_banks == 0 {
        c.chr_ram@
    } else {
        c.chr_rom@
    }
}

/// Palette aliasing. The four sprite-transparent palette cells are the
/// same cells as their background twins: a byte written through any of
/// the addresses 0x3F10, 0x3F14, 0x3F18 and 0x3F1C is read back through
/// 0x3F00, 0x3F04, 0x3F08 and 0x3F0C respectively, and the other way
/// round.
pub proof fn lemma_palette_aliasing(pal: Seq<u8>, k: int, x: u8)
    requires
        pal.len() == 32,
        k == 0 || k == 4 || k == 8 || k == 12,
    ensures
        palette_idx(0x3f10 + k) == palette_idx(0x3f00 + k),
        pal.update(palette_idx(0x3f10 + k), x)[palette_idx(0x3f00 + k)] == x,
        pal.update(palette_idx(0x3f00 + k), x)[palette_idx(0x3f10 + k)] == x,
{
}

/// The address and data port round trip. From any port state with the
/// write latch fresh: setting a nametable address through two address
/// writes, writing a byte through the data port, setting the same address
/// again, and reading the port twice (the first read only primes the
/// buffer) hands the byte back, whatever the increment width, the prior
/// buffer, or the memories held before.
pub proof fn lemma_data_port_round_trip(
    p0: DataPortView,
    m: MirroringMode,
    chr: Seq<u8>,
    hi: u8,
    lo: u8,
    v: u8,
)
    requires
        p0.latch_hi,
        p0.nametable.len() == 0x800,
        p0.palette.len() == 32,
        !(m is Hardware),
        0 <= p0.taddr < 0x8000,
        0x2000 <= (hi % 64) * 256 + lo,
        (hi % 64) * 256 + lo + 32 < 0x3f00,
    ensures
        ({
            let p1 = data_port_w2006(data_port_w2006(p0, hi), lo);
            let p2 = data_port_w2007(p1, m, v);
            let p3 = data_port_w2006(data_port_w2006(p2, hi), lo);
            let p4 = data_port_r2007(p3, m, chr).0;
            data_port_r2007(p4, m, chr).1 == v
        }),
{
    let a = (hi % 64) * 256 + lo;
    let p1 = data_port_w2006(data_port_w2006(p0, hi), lo);
    assert(((hi % 64) * 256 + p0.taddr % 256) % 256 == p0.taddr % 256) by (nonlinear_arith)
        requires
            0 <= p0.taddr,
    ;
    assert(p1.taddr == a) by (nonlinear_arith)
        requires
            p1.taddr == (hi % 64) * 256 + p0.taddr % 256 - ((hi % 64) * 256 + p0.taddr % 256) % 256
                + lo,
            ((hi % 64) * 256 + p0.taddr % 256) % 256 == p0.taddr % 256,
            a == (hi % 64) * 256 + lo,
    ;
    let p2 = data_port_w2007(p1, m, v);
    let idx = nt_index(m, a);
    assert(0 <= idx < 0x800);
    assert(p2.nametable[idx] == v);
    let p3 = data_port_w2006(data_port_w2006(p2, hi), lo);
    assert(((hi % 64) * 256 + p2.taddr % 256) % 256 == p2.taddr % 256) by (nonlinear_arith)
        requires
            0 <= p2.taddr,
    ;
    assert(p3.taddr == a) by (nonlinear_arith)
        requires
            p3.taddr == (hi % 64) * 256 + p2.taddr % 256 - ((hi % 64) * 256 + p2.taddr % 256) % 256
                + lo,
            ((hi % 64) * 256 + p2.taddr % 256) % 256 == p2.taddr % 256,
            a == (hi % 64) * 256 + lo,
    ;
    let p4 = data_port_r2007(p3, m, chr).0;
    assert(p4.buffer == v);
    assert(p4.vaddr < 0x3f00);
}


/// The picture unit. The processor reaches it through eight registers; the
/// unit itself walks the frame dot by dot, reading pattern data from the
/// cartridge on its own bus.
pub struct PPU {
    /// The two console nametables, one kibibyte each.
    pub nametable: Vec<u8>,
    /// The thirty-two palette cells.
    pub palette_table: Vec<u8>,
    /// The sprite-memory pointer register.
    pub oam_address: usize,
    /// The sixty-four sprite entries.
    pub oams: OAMS,
    /// The eight sprites selected for the line being drawn.
    pub next_scanline_oams: OAMS,
    /// How many of those eight are live.
    pub next_scanline_sprite_count: usize,
    /// Whether sprite zero is among them.
    pub is_sprite0_hit_possible: bool,
    /// Whether sprite zero produced the sprite pixel of this dot.
    pub is_sprite0_hit_being_rendered: bool,
    /// The frame being drawn.
    pub screen: Screen,
    /// The dot within the line, 0 through 340.
    pub cycle: i32,
    /// The line, -1 (pre-render) through 260.
    pub scanline: i32,
    /// One-frame latch: a frame has been completed.
    pub done_drawing: bool,
    /// One-shot request for the non-maskable interrupt.
    pub call_nmi: bool,
    /// Frame parity, for the shortened pre-render line.
    pub odd_frame: bool,
    /// Status: inside vertical blank.
    pub status_vblank: bool,
    /// Status: sprite zero overlapped the background this frame.
    pub status_sprite0_hit: bool,
    /// Status: more than eight sprites met one line this frame.
    pub status_sprite_overflow: bool,
    /// The control register.
    pub control: PPUControl,
    /// The mask register.
    pub mask: PPUMask,
    /// Which half the scroll and address pairs expect next.
    pub address_latch: AddressLatch,
    /// The delayed-read buffer of the data port.
    pub data_buffer: u8,
    /// The pixel offset within a tile, from the first scroll write.
    pub fine_x: usize,
    /// The staging loopy word.
    pub temp_address: PPUAddress,
    /// The live loopy word.
    pub vaddress: PPUAddress,
    /// The nametable byte fetched for the next tile.
    pub bg_next_tile_id: u8,
    /// The attribute bits fetched for the next tile.
    pub bg_next_tile_attrib: u8,
    /// The low pattern plane fetched for the next tile.
    pub bg_next_tile_lsb: u8,
    /// The high pattern plane fetched for the next tile.
    pub bg_next_tile_msb: u8,
    /// The background pattern shifters.
    pub bg_pattern_shifter: ShiftRegister16,
    /// The background attribute shifters.
    pub bg_attrib_shifter: ShiftRegister16,
    /// The eight sprite pattern shifters.
    pub sprite_pattern_shifter: Vec<ShiftRegister16>,
    /// Two small canvases for rendering the pattern tables on demand.
    pub screen_debug_pattern: Vec<Screen>,
}

/// The status byte reads assemble: the three flag bits over the low five
/// bits of the last buffered value.
pub open spec fn spec_status_byte(p: &PPU) -> int {
    (if p.status_vblank {
        0x80int
    } else {
        0int
    }) + (if p.status_sprite0_hit {
        0x40int
    } else {
        0int
    }) + (if p.status_sprite_overflow {
        0x20int
    } else {
        0int
    }) + p.data_buffer % 32
}

/// The byte a picture-bus read returns: character memory below 0x2000, the
/// mirrored nametables below 0x3F00, the palette above.
pub open spec fn spec_ppu_read(p: &PPU, c: &Cartridge, a: int) -> u8 {
    if a < 0x2000 {
        if c.n_chr_banks == 0 {
            c.chr_ram@[a]
        } else {
            c.chr_rom@[a]
        }
    } else if a < 0x3f00 {
        if c.hw_mirroring is Hardware {
            0u8
        } else {
            p.nametable@[nt_index(c.hw_mirroring, a)]
        }
    } else {
        p.palette_table@[palette_idx(a)]
    }
}

impl PPU {
    /// The structural facts every reachable unit state keeps: memory sizes,
    /// counter ranges, and bit-group bounds.
    pub open spec fn wf(&self) -> bool {
        &&& self.nametable@.len() == 0x800
        &&& self.palette_table@.len() == 32
        &&& self.oam_address < 256
        &&& self.oams.oams@.len() == 64
        &&& self.next_scanline_oams.oams@.len() == 8
        &&& self.next_scanline_sprite_count <= 8
        &&& self.screen.wf()
        &&& self.screen.width == 256
        &&& self.screen.height == 240
        &&& 0 <= self.cycle <= 340
        &&& -1 <= self.scanline <= 260
        &&& self.fine_x < 8
        &&& self.temp_address.wf()
        &&& self.vaddress.wf()
        &&& self.sprite_pattern_shifter@.len() == 8
        &&& self.screen_debug_pattern@.len() == 2
        &&& forall|i: int|
            0 <= i < 2 ==> (#[trigger] self.screen_debug_pattern@[i]).wf()
                && self.screen_debug_pattern@[i].width == 128
                && self.screen_debug_pattern@[i].height == 128
    }

    /// What the data port sees of this unit.
    pub open spec fn data_port_view(&self) -> DataPortView {
        DataPortView {
            latch_hi: self.address_latch is Hi,
            taddr: self.temp_address.spec_address(),
            vaddr: self.vaddress.spec_address(),
            buffer: self.data_buffer,
            increment32: (self.control.bits / 4) % 2 == 1,
            nametable: self.nametable@,
            palette: self.palette_table@,
        }
    }

    /// A unit at power-on: memories cleared, counters at the first dot of
    /// the first visible line, every flag down.
    pub fn new() -> (r: PPU)
        ensures
            r.wf(),
            r.cycle == 0 && r.scanline == 0,
            !r.done_drawing && !r.call_nmi && !r.status_vblank,
            r.control.bits == 0 && r.mask.bits == 0,
            r.address_latch is Hi,
            r.data_buffer == 0,
            r.oam_address == 0,
            r.temp_address.spec_address() == 0,
            r.vaddress.spec_address() == 0,
            forall|i: int| 0 <= i < 0x800 ==> r.nametable@[i] == 0,
            forall|i: int| 0 <= i < 32 ==> r.palette_table@[i] == 0,
    {
        let mut shifters: Vec<ShiftRegister16> = Vec::new();
        let mut i: usize = 0;
        while i < 8
            invariant
                i <= 8,
                shifters@.len() == i,
            decreases 8 - i,
        {
            shifters.push(ShiftRegister16::new());
            i = i + 1;
        }
        let mut debug_screens: Vec<Screen> = Vec::new();
        debug_screens.push(Screen::new(128, 128));
        debug_screens.push(Screen::new(128, 128));
        PPU {
            nametable: crate::cartridge::zero_vec(0x800),
            palette_table: crate::cartridge::zero_vec(32),
            oam_address: 0,
            oams: OAMS::new(64),
            next_scanline_oams: OAMS::new(8),
            next_scanline_sprite_count: 0,
            is_sprite0_hit_possible: false,
            is_sprite0_hit_being_rendered: false,
            screen: Screen::new(NES_WIDTH_SIZE, NES_HEIGHT_SIZE),
            cycle: 0,
            scanline: 0,
            done_drawing: false,
            call_nmi: false,
            odd_frame: false,
            status_vblank: false,
            status_sprite0_hit: false,
            status_sprite_overflow: false,
            control: PPUControl::empty(),
            mask: PPUMask::empty(),
            address_latch: AddressLatch::Hi,
            data_buffer: 0,
            fine_x: 0,
            temp_address: PPUAddress::new(),
            vaddress: PPUAddress::new(),
            bg_next_tile_id: 0,
            bg_next_tile_attrib: 0,
            bg_next_tile_lsb: 0,
            bg_next_tile_msb: 0,
            bg_pattern_shifter: ShiftRegister16::new(),
            bg_attrib_shifter: ShiftRegister16::new(),
            sprite_pattern_shifter: shifters,
            screen_debug_pattern: debug_screens,
        }
    }

    /// The palette cell an address selects, as the executable twin of
    /// `palette_idx`.
    fn palette_index_of(address: usize) -> (r: usize)
        ensures
            r == palette_idx(address as int),
            r < 32,
    {
        let i = address % 32;
        if i == 16 {
            0
        } else if i == 20 {
            4
        } else if i == 24 {
            8
        } else if i == 28 {
            12
        } else {
            i
        }
    }

    /// A read on the unit's own bus: the cartridge answers pattern
    /// addresses, the mirrored nametables and the palette answer the rest.
    pub fn ppu_read(&self, cart: &mut Cartridge, address: usize, is_read_only: bool) -> (r: u8)
        requires
            self.wf(),
            old(cart).wf(),
            address < 0x4000,
        ensures
            final(cart).wf(),
            *final(cart) == (Cartridge {
                use_cartridge_data: final(cart).use_cartridge_data,
                ..*old(cart)
            }),
            r == spec_ppu_read(self, old(cart), address as int),
    {
        let data = cart.ppu_read(address, is_read_only);
        if cart.use_cartridge_data() {
            return data;
        }
        if address < 0x3f00 {
            let na = address % 0x1000;
            match cart.mirroring() {
                MirroringMode::Horizontal => self.nametable[(na / 0x800) * 0x400 + na % 0x400],
                MirroringMode::Vertical => self.nametable[((na / 0x400) % 2) * 0x400 + na % 0x400],
                MirroringMode::SingleScreen => self.nametable[na % 0x400],
                MirroringMode::Hardware => 0,
            }
        } else {
            self.palette_table[Self::palette_index_of(address)]
        }
    }

    /// A write on the unit's own bus: pattern addresses go to the
    /// cartridge's character RAM, the rest to the mirrored nametables or
    /// the palette.
    pub fn ppu_write(&mut self, cart: &mut Cartridge, address: usize, value: u8)
        requires
            old(self).wf(),
            old(cart).wf(),
            address < 0x4000,
        ensures
            final(self).wf(),
            final(cart).wf(),
            *final(self) == (PPU {
                nametable: final(self).nametable,
                palette_table: final(self).palette_table,
                ..*old(self)
            }),
            final(self).nametable@ == if 0x2000 <= address < 0x3f00 && !(old(cart).hw_mirroring is Hardware) {
                old(self).nametable@.update(
                    nt_index(old(cart).hw_mirroring, address as int),
                    value,
                )
            } else {
                old(self).nametable@
            },
            final(self).palette_table@ == if address >= 0x3f00 {
                old(self).palette_table@.update(palette_idx(address as int), value)
            } else {
                old(self).palette_table@
            },
            final(cart).chr_ram@ == if address < 0x2000 {
                old(cart).chr_ram@.update(address as int, value)
            } else {
                old(cart).chr_ram@
            },
            final(cart).chr_rom@ == old(cart).chr_rom@,
            final(cart).prg_rom@ == old(cart).prg_rom@,
            final(cart).mapper.vram@ == old(cart).mapper.vram@,
            final(cart).hw_mirroring == old(cart).hw_mirroring,
            final(cart).n_chr_banks == old(cart).n_chr_banks,
            final(cart).n_prg_banks == old(cart).n_prg_banks,
            final(cart).header == old(cart).header,
    {
        cart.ppu_write(address, value);
        if cart.use_cartridge_data() {
            return ;
        }
        if address < 0x3f00 {
            let na = address % 0x1000;
            match cart.mirroring() {
                MirroringMode::Horizontal => {
                    self.nametable.set((na / 0x800) * 0x400 + na % 0x400, value);
                },
                MirroringMode::Vertical => {
                    self.nametable.set(((na / 0x400) % 2) * 0x400 + na % 0x400, value);
                },
                MirroringMode::SingleScreen => {
                    self.nametable.set(na % 0x400, value);
                },
                MirroringMode::Hardware => {},
            }
        } else {
            self.palette_table.set(Self::palette_index_of(address), value);
        }
    }

    /// Step the live loopy word by the width the control register selects.
    fn increase_vaddress(&mut self)
        requires
            old(self).wf(),
        ensures
            final(self).wf(),
            *final(self) == (PPU { vaddress: final(self).vaddress, ..*old(self) }),
            final(self).vaddress.spec_address() == (old(self).vaddress.spec_address() + (if (old(self).control.bits / 4) % 2 == 1 {
                32int
            } else {
                1int
            })) % 0x8000,
    {
        let factor: usize = if self.control.increment_32() {
            32
        } else {
            1
        };
        let a = self.vaddress.address();
        self.vaddress.set_address(a + factor);
    }

    /// A processor read of one of the eight registers, selected by the low
    /// three address bits. Only the status, sprite-data and data-port
    /// registers answer; reading the status clears vertical blank and
    /// resets the write latch, and a data-port read moves the address on.
    /// A read-only access observes without disturbing anything.
    #[verifier::rlimit(60)]
    pub fn read_register(&mut self, cart: &mut Cartridge, address: usize, is_read_only: bool) -> (r:
        u8)
        requires
            old(self).wf(),
            old(cart).wf(),
        ensures
            final(self).wf(),
            final(cart).wf(),
            *final(cart) == (Cartridge {
                use_cartridge_data: final(cart).use_cartridge_data,
                ..*old(cart)
            }),
            ({
                let reg = address as int % 8;
                &&& (reg == 0 || reg == 1 || reg == 5 || reg == 6) ==> r == 0 && *final(self)
                    == *old(self)
                &&& reg == 3 ==> r == 0xff && *final(self) == *old(self)
                &&& reg == 2 ==> r == spec_status_byte(old(self)) && *final(self) == (PPU {
                    status_vblank: if is_read_only {
                        old(self).status_vblank
                    } else {
                        false
                    },
                    address_latch: if is_read_only {
                        old(self).address_latch
                    } else {
                        AddressLatch::Hi
                    },
                    ..*old(self)
                })
                &&& reg == 4 ==> r == oam_byte(old(self).oams.oams@, old(self).oam_address as int)
                    && *final(self) == *old(self)
                &&& reg == 7 && is_read_only ==> r == (if old(self).vaddress.spec_address()
                    % 0x4000 >= 0x3f00 {
                    old(self).palette_table@[palette_idx(
                        old(self).vaddress.spec_address() % 0x4000,
                    )]
                } else {
                    old(self).data_buffer
                }) && *final(self) == *old(self)
                &&& reg == 7 && !is_read_only ==> (final(self).data_port_view(), r)
                    == data_port_r2007(
                    old(self).data_port_view(),
                    old(cart).hw_mirroring,
                    chr_view(old(cart)),
                ) && *final(self) == (PPU {
                    vaddress: final(self).vaddress,
                    data_buffer: final(self).data_buffer,
                    ..*old(self)
                })
            }),
    {
        match address % 8 {
            2 => {
                let hi: u8 = if self.status_vblank {
                    0x80
                } else {
                    0
                };
                let s0: u8 = if self.status_sprite0_hit {
                    0x40
                } else {
                    0
                };
                let ov: u8 = if self.status_sprite_overflow {
                    0x20
                } else {
                    0
                };
                let status = hi + s0 + ov + self.data_buffer % 32;
                if !is_read_only {
                    self.status_vblank = false;
                    self.address_latch = AddressLatch::Hi;
                }
                status
            },
            3 => 0xff,
            4 => self.oams.read_byte(self.oam_address),
            7 => {
                let vaddr = self.vaddress.address() % 0x4000;
                if is_read_only {
                    if vaddr >= 0x3f00 {
                        self.palette_table[Self::palette_index_of(vaddr)]
                    } else {
                        self.data_buffer
                    }
                } else {
                    let read_result = self.ppu_read(cart, vaddr, false);
                    let result: u8;
                    if vaddr >= 0x3f00 {
                        // The palette answers at once; the buffer catches
                        // the nametable byte that sits underneath it.
                        result = read_result;
                        self.data_buffer = self.ppu_read(cart, vaddr - 0x1000, false);
                    } else {
                        result = self.data_buffer;
                        self.data_buffer = read_result;
                    }
                    self.increase_vaddress();
                    result
                }
            },
            _ => 0,
        }
    }


    /// One write to the address pair, as `data_port_w2006` describes.
    #[verifier::rlimit(100)]
    fn write_addr_reg(&mut self, value: u8)
        requires
            old(self).wf(),
        ensures
            final(self).wf(),
            final(self).data_port_view() == data_port_w2006(old(self).data_port_view(), value),
            *final(self) == (PPU {
                address_latch: final(self).address_latch,
                temp_address: final(self).temp_address,
                vaddress: final(self).vaddress,
                ..*old(self)
            }),
    {
        match self.address_latch {
            AddressLatch::Hi => {
                self.address_latch = AddressLatch::Lo;
                let keep = self.temp_address.address() % 256;
                self.temp_address.set_address(((value as usize) % 64) * 256 + keep);
            },
            AddressLatch::Lo => {
                let t = self.temp_address.address();
                self.temp_address.set_address(t - t % 256 + value as usize);
                self.address_latch = AddressLatch::Hi;
                self.vaddress = self.temp_address;
            },
        }
    }

    /// One write through the data port, as `data_port_w2007` describes;
    /// pattern addresses land in the cartridge's character RAM.
    #[verifier::rlimit(100)]
    fn write_data_reg(&mut self, cart: &mut Cartridge, value: u8)
        requires
            old(self).wf(),
            old(cart).wf(),
        ensures
            final(self).wf(),
            final(cart).wf(),
            final(self).data_port_view() == data_port_w2007(
                old(self).data_port_view(),
                old(cart).hw_mirroring,
                value,
            ),
            *final(self) == (PPU {
                nametable: final(self).nametable,
                palette_table: final(self).palette_table,
                vaddress: final(self).vaddress,
                ..*old(self)
            }),
            final(cart).chr_ram@ == (if old(self).vaddress.spec_address() % 0x4000 < 0x2000 {
                old(cart).chr_ram@.update(old(self).vaddress.spec_address() % 0x4000, value)
            } else {
                old(cart).chr_ram@
            }),
            final(cart).chr_rom@ == old(cart).chr_rom@,
            final(cart).prg_rom@ == old(cart).prg_rom@,
            final(cart).mapper.vram@ == old(cart).mapper.vram@,
            final(cart).hw_mirroring == old(cart).hw_mirroring,
            final(cart).n_chr_banks == old(cart).n_chr_banks,
            final(cart).n_prg_banks == old(cart).n_prg_banks,
            final(cart).header == old(cart).header,
    {
        let vaddr = self.vaddress.address() % 0x4000;
        self.ppu_write(cart, vaddr, value);
        self.increase_vaddress();
    }

    /// A processor write to one of the eight registers, selected by the low
    /// three address bits: control and mask latch their byte, the
    /// sprite-memory pair moves its pointer, the scroll and address pairs
    /// fill their halves in turn, and the data port writes through the
    /// live address and moves it on.
    #[verifier::rlimit(100)]
    pub fn write_register(&mut self, cart: &mut Cartridge, address: usize, value: u8)
        requires
            old(self).wf(),
            old(cart).wf(),
        ensures
            final(self).wf(),
            final(cart).wf(),
            ({
                let reg = address as int % 8;
                &&& reg == 0 ==> *final(self) == (PPU {
                    control: final(self).control,
                    temp_address: final(self).temp_address,
                    ..*old(self)
                }) && final(self).control.bits == value && final(self).temp_address == (PPUAddress {
                    nametable_x: (value as int % 2) as u8,
                    nametable_y: ((value as int / 2) % 2) as u8,
                    ..old(self).temp_address
                }) && *final(cart) == *old(cart)
                &&& reg == 1 ==> *final(self) == (PPU {
                    mask: (PPUMask { bits: value }),
                    ..*old(self)
                }) && *final(cart) == *old(cart)
                &&& reg == 2 ==> *final(self) == *old(self) && *final(cart) == *old(cart)
                &&& reg == 3 ==> *final(self) == (PPU {
                    oam_address: value as usize,
                    ..*old(self)
                }) && *final(cart) == *old(cart)
                &&& reg == 4 ==> *final(self) == (PPU {
                    oams: final(self).oams,
                    oam_address: ((old(self).oam_address + 1) % 256) as usize,
                    ..*old(self)
                }) && final(self).oams.oams@ == old(self).oams.oams@.update(
                    old(self).oam_address as int / 4,
                    oam_with_byte(
                        old(self).oams.oams@[old(self).oam_address as int / 4],
                        old(self).oam_address as int % 4,
                        value,
                    ),
                ) && *final(cart) == *old(cart)
                &&& reg == 5 ==> *final(self) == (PPU {
                    address_latch: final(self).address_latch,
                    fine_x: final(self).fine_x,
                    temp_address: final(self).temp_address,
                    ..*old(self)
                }) && (old(self).address_latch is Hi ==> final(self).address_latch is Lo && final(self).fine_x == value as int % 8 && final(self).temp_address == (PPUAddress {
                    coarse_x: (value / 8) as u8,
                    ..old(self).temp_address
                })) && (old(self).address_latch is Lo ==> final(self).address_latch is Hi && final(self).fine_x == old(self).fine_x && final(self).temp_address == (PPUAddress {
                    fine_y: (value as int % 8) as u8,
                    coarse_y: (value / 8) as u8,
                    ..old(self).temp_address
                })) && *final(cart) == *old(cart)
                &&& reg == 6 ==> final(self).data_port_view() == data_port_w2006(
                    old(self).data_port_view(),
                    value,
                ) && *final(self) == (PPU {
                    address_latch: final(self).address_latch,
                    temp_address: final(self).temp_address,
                    vaddress: final(self).vaddress,
                    ..*old(self)
                }) && *final(cart) == *old(cart)
                &&& reg == 7 ==> final(self).data_port_view() == data_port_w2007(
                    old(self).data_port_view(),
                    old(cart).hw_mirroring,
                    value,
                ) && *final(self) == (PPU {
                    nametable: final(self).nametable,
                    palette_table: final(self).palette_table,
                    vaddress: final(self).vaddress,
                    ..*old(self)
                }) && final(cart).chr_ram@ == (if old(self).vaddress.spec_address() % 0x4000 < 0x2000 {
                    old(cart).chr_ram@.update(old(self).vaddress.spec_address() % 0x4000, value)
                } else {
                    old(cart).chr_ram@
                }) && final(cart).chr_rom@ == old(cart).chr_rom@ && final(cart).prg_rom@ == old(cart).prg_rom@ && final(cart).mapper.vram@ == old(cart).mapper.vram@ && final(cart).hw_mirroring == old(cart).hw_mirroring && final(cart).n_chr_banks == old(cart).n_chr_banks && final(cart).n_prg_banks == old(cart).n_prg_banks && final(cart).header == old(cart).header
            }),
    {
        match address % 8 {
            0 => {
                self.control = PPUControl { bits: value };
                self.temp_address.set_nametable_select_x((value % 2) as usize);
                self.temp_address.set_nametable_select_y(((value / 2) % 2) as usize);
            },
            1 => {
                self.mask = PPUMask { bits: value };
            },
            2 => {},
            3 => {
                self.oam_address = value as usize;
            },
            4 => {
                self.oams.write_byte(self.oam_address, value);
                self.oam_address = (self.oam_address + 1) % 256;
            },
            5 => {
                match self.address_latch {
                    AddressLatch::Hi => {
                        self.address_latch = AddressLatch::Lo;
                        self.fine_x = (value % 8) as usize;
                        self.temp_address.set_coarse_x((value / 8) as usize);
                    },
                    AddressLatch::Lo => {
                        self.address_latch = AddressLatch::Hi;
                        self.temp_address.set_fine_y((value % 8) as usize);
                        self.temp_address.set_coarse_y((value / 8) as usize);
                    },
                }
            },
            6 => {
                self.write_addr_reg(value);
            },
            _ => {
                self.write_data_reg(cart, value);
            },
        }
    }

    /// Write one byte of sprite memory directly, as the block transfer
    /// does.
    pub fn write_oam_address(&mut self, address: usize, value: u8)
        requires
            old(self).wf(),
            address < 256,
        ensures
            final(self).wf(),
            *final(self) == (PPU { oams: final(self).oams, ..*old(self) }),
            final(self).oams.oams@ == old(self).oams.oams@.update(
                address as int / 4,
                oam_with_byte(
                    old(self).oams.oams@[address as int / 4],
                    address as int % 4,
                    value,
                ),
            ),
    {
        self.oams.write_byte(address, value);
    }

    /// The dot within the line.
    pub fn cycle(&self) -> (r: i32)
        ensures
            r == self.cycle,
    {
        self.cycle
    }

    /// The line being walked.
    pub fn scanline(&self) -> (r: i32)
        ensures
            r == self.scanline,
    {
        self.scanline
    }

    /// The frame being drawn.
    pub fn screen(&self) -> (r: &Screen)
        ensures
            r == self.screen,
    {
        &self.screen
    }
}


/// Where a unit stands in its frame: dots walked since the first dot of
/// the pre-render line.
pub open spec fn ppu_pos(p: &PPU) -> int {
    (p.scanline + 1) * 341 + p.cycle
}

/// Reverse the bit order of a byte, for horizontally flipped sprites.
fn reverse_bits(value: u8) -> u8 {
    let mut b = value;
    b = ((b & 0xf0) >> 4) | ((b & 0x0f) << 4);
    b = ((b & 0xcc) >> 2) | ((b & 0x33) << 2);
    b = ((b & 0xaa) >> 1) | ((b & 0x55) << 1);
    b
}

impl PPU {
    /// Reload the background shifters' low bytes from the fetched tile:
    /// pattern planes as they are, attribute bits spread across the byte.
    fn load_background_shifters(&mut self)
        requires
            old(self).wf(),
        ensures
            final(self).wf(),
            *final(self) == (PPU {
                bg_pattern_shifter: final(self).bg_pattern_shifter,
                bg_attrib_shifter: final(self).bg_attrib_shifter,
                ..*old(self)
            }),
    {
        self.bg_pattern_shifter.load_lo(self.bg_next_tile_lsb);
        self.bg_pattern_shifter.load_hi(self.bg_next_tile_msb);
        self.bg_attrib_shifter.load_lo(
            if self.bg_next_tile_attrib % 2 == 1 {
                0xff
            } else {
                0
            },
        );
        self.bg_attrib_shifter.load_hi(
            if (self.bg_next_tile_attrib / 2) % 2 == 1 {
                0xff
            } else {
                0
            },
        );
    }

    /// Clear the eight sprite shifters.
    fn reset_sprite_pattern_shifter(&mut self)
        requires
            old(self).wf(),
        ensures
            final(self).wf(),
            *final(self) == (PPU {
                sprite_pattern_shifter: final(self).sprite_pattern_shifter,
                ..*old(self)
            }),
    {
        let ghost pre = *self;
        let mut i: usize = 0;
        while i < 8
            invariant
                i <= 8,
                self.sprite_pattern_shifter@.len() == 8,
                *self == (PPU { sprite_pattern_shifter: self.sprite_pattern_shifter, ..pre }),
            decreases 8 - i,
        {
            self.sprite_pattern_shifter.set(i, ShiftRegister16::new());
            i = i + 1;
        }
    }

    /// Move the pipeline one dot: the background shifters step while the
    /// background is drawn, and each live sprite either counts down to its
    /// column or steps its own shifters.
    fn update_shifters(&mut self)
        requires
            old(self).wf(),
        ensures
            final(self).wf(),
            *final(self) == (PPU {
                bg_pattern_shifter: final(self).bg_pattern_shifter,
                bg_attrib_shifter: final(self).bg_attrib_shifter,
                next_scanline_oams: final(self).next_scanline_oams,
                sprite_pattern_shifter: final(self).sprite_pattern_shifter,
                ..*old(self)
            }),
    {
        if self.mask.is_render_bg() {
            self.bg_pattern_shifter.shift();
            self.bg_attrib_shifter.shift();
        }
        if self.mask.is_render_sprite() && 1 <= self.cycle && self.cycle <= 258 {
            let ghost pre = *self;
            let count = self.next_scanline_sprite_count;
            let mut si: usize = 0;
            while si < count
                invariant
                    count <= 8,
                    self.next_scanline_oams.oams@.len() == 8,
                    self.sprite_pattern_shifter@.len() == 8,
                    *self == (PPU {
                        next_scanline_oams: self.next_scanline_oams,
                        sprite_pattern_shifter: self.sprite_pattern_shifter,
                        ..pre
                    }),
                decreases count - si,
            {
                let mut sprite = self.next_scanline_oams.get(si);
                if sprite.x > 0 {
                    sprite.x = sprite.x - 1;
                    self.next_scanline_oams.set(si, sprite);
                } else {
                    let mut shifter = self.sprite_pattern_shifter[si];
                    shifter.shift();
                    self.sprite_pattern_shifter.set(si, shifter);
                }
                si = si + 1;
            }
        }
    }

    /// One dot of the background fetch cadence: nametable byte, attribute
    /// bits, the two pattern planes, and the horizontal step, each on its
    /// own dot of the eight-dot tile.
    fn fetch_background(&mut self, cart: &mut Cartridge)
        requires
            old(self).wf(),
            old(cart).wf(),
            1 <= old(self).cycle,
        ensures
            final(self).wf(),
            final(cart).wf(),
            *final(cart) == (Cartridge {
                use_cartridge_data: final(cart).use_cartridge_data,
                ..*old(cart)
            }),
            *final(self) == (PPU {
                bg_pattern_shifter: final(self).bg_pattern_shifter,
                bg_attrib_shifter: final(self).bg_attrib_shifter,
                bg_next_tile_id: final(self).bg_next_tile_id,
                bg_next_tile_attrib: final(self).bg_next_tile_attrib,
                bg_next_tile_lsb: final(self).bg_next_tile_lsb,
                bg_next_tile_msb: final(self).bg_next_tile_msb,
                vaddress: final(self).vaddress,
                ..*old(self)
            }),
    {
        let phase = (self.cycle - 1) % 8;
        if phase == 0 {
            self.load_background_shifters();
            let addr = 0x2000 + self.vaddress.address() % 0x1000;
            self.bg_next_tile_id = self.ppu_read(cart, addr, false);
        } else if phase == 2 {
            // The attribute byte for the 32-by-32-pixel region: nametable
            // bits, then the upper halves of the coarse coordinates.
            let nt = (self.vaddress.nametable_select_y()) * 0x800 + (
            self.vaddress.nametable_select_x()) * 0x400;
            let addr = 0x23c0 + nt + (self.vaddress.coarse_y() / 4) * 8 + self.vaddress.coarse_x()
                / 4;
            let mut attrib = self.ppu_read(cart, addr, false);
            if self.vaddress.coarse_y() % 4 >= 2 {
                attrib = attrib / 16;
            }
            if self.vaddress.coarse_x() % 4 >= 2 {
                attrib = attrib / 4;
            }
            self.bg_next_tile_attrib = attrib % 4;
        } else if phase == 4 {
            let base: usize = if self.control.bg_pattern_table() {
                0x1000
            } else {
                0
            };
            let addr = base + (self.bg_next_tile_id as usize) * 16 + self.vaddress.fine_y();
            self.bg_next_tile_lsb = self.ppu_read(cart, addr, false);
        } else if phase == 6 {
            let base: usize = if self.control.bg_pattern_table() {
                0x1000
            } else {
                0
            };
            let addr = base + (self.bg_next_tile_id as usize) * 16 + self.vaddress.fine_y() + 8;
            self.bg_next_tile_msb = self.ppu_read(cart, addr, false);
        } else if phase == 7 {
            if self.mask.is_render_something() {
                self.vaddress.increase_coarse_x();
            }
        }
    }

    /// Select the sprites that meet the line being prepared: the first
    /// eight in table order are kept with their patterns fetched and
    /// flipped as their attributes ask; a ninth raises sprite overflow;
    /// sprite zero among them arms the sprite-zero hit.
    fn evaluate_sprites(&mut self, cart: &mut Cartridge)
        requires
            old(self).wf(),
            old(cart).wf(),
        ensures
            final(self).wf(),
            final(cart).wf(),
            *final(cart) == (Cartridge {
                use_cartridge_data: final(cart).use_cartridge_data,
                ..*old(cart)
            }),
            *final(self) == (PPU {
                next_scanline_oams: final(self).next_scanline_oams,
                next_scanline_sprite_count: final(self).next_scanline_sprite_count,
                is_sprite0_hit_possible: final(self).is_sprite0_hit_possible,
                status_sprite_overflow: final(self).status_sprite_overflow,
                sprite_pattern_shifter: final(self).sprite_pattern_shifter,
                ..*old(self)
            }),
            old(self).status_sprite_overflow ==> final(self).status_sprite_overflow,
    {
        self.next_scanline_oams.reset();
        let height: i32 = if self.control.sprite_size_16() {
            16
        } else {
            8
        };
        let mut count: usize = 0;
        let mut overflow = false;
        self.is_sprite0_hit_possible = false;
        let ghost pre = *self;
        let mut i: usize = 0;
        while i < 64
            invariant
                i <= 64,
                count <= 8,
                -1 <= self.scanline <= 260,
                self.oams.oams@.len() == 64,
                self.next_scanline_oams.oams@.len() == 8,
                *self == (PPU {
                    next_scanline_oams: self.next_scanline_oams,
                    is_sprite0_hit_possible: self.is_sprite0_hit_possible,
                    ..pre
                }),
            decreases 64 - i,
        {
            let entry = self.oams.get(i);
            let diff: i32 = self.scanline - (entry.y as i32);
            if 0 <= diff && diff < height {
                if count < 8 {
                    if i == 0 {
                        self.is_sprite0_hit_possible = true;
                    }
                    self.next_scanline_oams.set(count, entry);
                    count = count + 1;
                } else {
                    overflow = true;
                }
            }
            i = i + 1;
        }
        self.next_scanline_sprite_count = count;
        if overflow {
            self.status_sprite_overflow = true;
        }
        let ghost mid = *self;
        let ghost cart_pre = *cart;
        let mut s: usize = 0;
        while s < count
            invariant
                count <= 8,
                height == 8 || height == 16,
                self.next_scanline_oams.oams@.len() == 8,
                self.sprite_pattern_shifter@.len() == 8,
                self.wf(),
                cart.wf(),
                *self == (PPU {
                    sprite_pattern_shifter: self.sprite_pattern_shifter,
                    ..mid
                }),
                *cart == (Cartridge { use_cartridge_data: cart.use_cartridge_data, ..cart_pre }),
            decreases count - s,
        {
            let sprite = self.next_scanline_oams.get(s);
            let row: i32 = self.scanline - (sprite.y as i32);
            if 0 <= row && row < height {
                let flip_vertical = (sprite.attr / 0x80) % 2 == 1;
                let address_lo: usize;
                if height == 16 {
                    let id = sprite.id as usize;
                    let r: usize = if flip_vertical {
                        (15 - row) as usize
                    } else {
                        row as usize
                    };
                    let table = id % 2;
                    let tile = if r < 8 {
                        id - id % 2
                    } else {
                        id - id % 2 + 1
                    };
                    address_lo = table * 0x1000 + tile * 16 + r % 8;
                } else {
                    let table: usize = if self.control.sprite_pattern_table() {
                        1
                    } else {
                        0
                    };
                    let r: usize = if flip_vertical {
                        (7 - row) as usize
                    } else {
                        row as usize
                    };
                    address_lo = table * 0x1000 + (sprite.id as usize) * 16 + r;
                }
                let mut bits_lo = self.ppu_read(cart, address_lo, false);
                let mut bits_hi = self.ppu_read(cart, address_lo + 8, false);
                if (sprite.attr / 0x40) % 2 == 1 {
                    bits_lo = reverse_bits(bits_lo);
                    bits_hi = reverse_bits(bits_hi);
                }
                let mut shifter = self.sprite_pattern_shifter[s];
                shifter.load_lo(bits_lo);
                shifter.load_hi(bits_hi);
                self.sprite_pattern_shifter.set(s, shifter);
            }
            s = s + 1;
        }
    }

    /// The colour a palette cell drives out, read through the unit's own
    /// bus.
    pub fn get_color(&self, cart: &mut Cartridge, palette: usize, pixel: usize) -> (r: PPUColor)
        requires
            self.wf(),
            old(cart).wf(),
            palette < 8,
            pixel < 4,
        ensures
            final(cart).wf(),
            *final(cart) == (Cartridge {
                use_cartridge_data: final(cart).use_cartridge_data,
                ..*old(cart)
            }),
            r == crate::utils::spec_ppu_color(
                self.palette_table@[palette_idx(0x3f00 + palette * 4 + pixel)] as int,
            ),
    {
        let address = 0x3f00 + palette * 4 + pixel;
        let index = self.ppu_read(cart, address, true);
        ppu_color(index as usize)
    }

    /// Emit the pixel of the current dot: the background bit pair against
    /// the first opaque sprite, priority resolved, sprite-zero overlap
    /// recorded, and the chosen palette cell painted into the frame.
    #[verifier::rlimit(100)]
    fn compose_pixel(&mut self, cart: &mut Cartridge)
        requires
            old(self).wf(),
            old(cart).wf(),
            0 <= old(self).scanline < 240,
            0 <= old(self).cycle < 256,
        ensures
            final(self).wf(),
            final(cart).wf(),
            *final(cart) == (Cartridge {
                use_cartridge_data: final(cart).use_cartridge_data,
                ..*old(cart)
            }),
            *final(self) == (PPU {
                screen: final(self).screen,
                status_sprite0_hit: final(self).status_sprite0_hit,
                is_sprite0_hit_being_rendered: final(self).is_sprite0_hit_being_rendered,
                ..*old(self)
            }),
            old(self).status_sprite0_hit ==> final(self).status_sprite0_hit,
            final(self).screen.image@.len() == old(self).screen.image@.len(),
            forall|j: int|
                0 <= j < old(self).screen.image@.len() && !((256 * old(self).scanline + old(self).cycle) * 4 <= j < (256 * old(self).scanline + old(self).cycle) * 4 + 4)
                    ==> final(self).screen.image@[j] == old(self).screen.image@[j],
            final(self).screen.image@[(256 * old(self).scanline + old(self).cycle) * 4 + 3] == 255,
    {
        let mut palette: usize = 0;
        let mut pixel: usize = 0;
        let mut bg_pixel: usize = 0;
        let mut bg_palette: usize = 0;
        if self.mask.is_render_bg() {
            bg_pixel = self.bg_pattern_shifter.get(self.fine_x);
            bg_palette = self.bg_attrib_shifter.get(self.fine_x);
        }
        let mut fg_pixel: usize = 0;
        let mut fg_palette: usize = 0;
        let mut fg_priority = false;
        if self.mask.is_render_sprite() {
            self.is_sprite0_hit_being_rendered = false;
            let ghost pre = *self;
            let count = self.next_scanline_sprite_count;
            let mut si: usize = 0;
            while si < count
                invariant
                    count <= 8,
                    self.next_scanline_oams.oams@.len() == 8,
                    self.sprite_pattern_shifter@.len() == 8,
                    fg_palette < 8,
                    fg_pixel <= 3,
                    *self == (PPU {
                        is_sprite0_hit_being_rendered: self.is_sprite0_hit_being_rendered,
                        ..pre
                    }),
                decreases count - si,
            {
                let sprite = self.next_scanline_oams.get(si);
                if sprite.x == 0 {
                    fg_pixel = self.sprite_pattern_shifter[si].get(8);
                    fg_palette = (sprite.attr % 4) as usize + 4;
                    fg_priority = (sprite.attr / 0x20) % 2 == 0;
                    if fg_pixel != 0 {
                        if si == 0 {
                            self.is_sprite0_hit_being_rendered = true;
                        }
                        break ;
                    }
                }
                si = si + 1;
            }
        }
        if bg_pixel == 0 && fg_pixel != 0 {
            pixel = fg_pixel;
            palette = fg_palette;
        } else if bg_pixel != 0 && fg_pixel == 0 {
            pixel = bg_pixel;
            palette = bg_palette;
        } else if bg_pixel != 0 && fg_pixel != 0 {
            if fg_priority {
                pixel = fg_pixel;
                palette = fg_palette;
            } else {
                pixel = bg_pixel;
                palette = bg_palette;
            }
            if self.is_sprite0_hit_possible && self.is_sprite0_hit_being_rendered
                && self.mask.is_render_something() {
                // The overlap only counts inside the dots both layers can
                // occupy; with either left-column window closed the first
                // eight dots are excluded.
                let left_ok = if self.mask.is_render_left() {
                    true
                } else {
                    self.cycle >= 9
                };
                if left_ok && 1 <= self.cycle && self.cycle <= 255 {
                    self.status_sprite0_hit = true;
                }
            }
        }
        let color = self.get_color(cart, palette, pixel);
        self.screen.set_pixel(self.cycle as usize, self.scanline as usize, color);
    }

    /// Advance one dot. Every dot of a 341-dot line of the 262-line frame
    /// is walked in order, except that odd frames with the background
    /// enabled skip the last dot of the pre-render line. Vertical blank
    /// rises at dot one of line 241, requesting the interrupt when it is
    /// enabled, and falls with the other flags at dot one of the
    /// pre-render line; the frame latch rises as the last dot completes.
    /// No register, sprite entry or port memory changes under rendering.
    #[verifier::rlimit(100)]
    pub fn clock(&mut self, cart: &mut Cartridge)
        requires
            old(self).wf(),
            old(cart).wf(),
        ensures
            final(self).wf(),
            final(cart).wf(),
            *final(cart) == (Cartridge {
                use_cartridge_data: final(cart).use_cartridge_data,
                ..*old(cart)
            }),
            ppu_pos(final(self)) == if old(self).scanline == 260 && old(self).cycle == 340 {
                0int
            } else if old(self).scanline == -1 && old(self).cycle == 339 && old(self).odd_frame
                && (old(self).mask.bits / 8) % 2 == 1 {
                341int
            } else {
                ppu_pos(old(self)) + 1
            },
            final(self).done_drawing == (old(self).done_drawing || (old(self).scanline == 260
                && old(self).cycle == 340)),
            final(self).odd_frame == if old(self).scanline == 260 && old(self).cycle == 340 {
                !old(self).odd_frame
            } else {
                old(self).odd_frame
            },
            final(self).status_vblank == if old(self).scanline == 241 && old(self).cycle == 1 {
                true
            } else if old(self).scanline == -1 && old(self).cycle == 1 {
                false
            } else {
                old(self).status_vblank
            },
            final(self).call_nmi == if old(self).scanline == 241 && old(self).cycle == 1 && (old(self).control.bits / 0x80) % 2 == 1 {
                true
            } else {
                old(self).call_nmi
            },
            old(self).scanline == -1 && old(self).cycle == 1 ==> !final(self).status_sprite0_hit
                && !final(self).status_sprite_overflow && !final(self).is_sprite0_hit_possible
                && !final(self).is_sprite0_hit_being_rendered,
            0 <= old(self).scanline < 240 && 0 <= old(self).cycle < 256 ==> final(self).screen.image@.len() == old(self).screen.image@.len() && (forall|j: int|
                0 <= j < old(self).screen.image@.len() && !((256 * old(self).scanline + old(self).cycle) * 4 <= j < (256 * old(self).scanline + old(self).cycle) * 4 + 4)
                    ==> final(self).screen.image@[j] == old(self).screen.image@[j]) && final(self).screen.image@[(256 * old(self).scanline + old(self).cycle) * 4 + 3] == 255,
            !(0 <= old(self).scanline < 240 && 0 <= old(self).cycle < 256) ==> final(self).screen.image@ == old(self).screen.image@,
            final(self).control == old(self).control,
            final(self).mask == old(self).mask,
            final(self).address_latch == old(self).address_latch,
            final(self).data_buffer == old(self).data_buffer,
            final(self).fine_x == old(self).fine_x,
            final(self).temp_address == old(self).temp_address,
            final(self).oams.oams@ == old(self).oams.oams@,
            final(self).nametable@ == old(self).nametable@,
            final(self).palette_table@ == old(self).palette_table@,
            final(self).oam_address == if old(self).scanline < 240 && old(self).cycle == 257 && (
            (old(self).mask.bits / 8) % 2 == 1 || (old(self).mask.bits / 0x10) % 2 == 1) {
                0int
            } else {
                old(self).oam_address as int
            },
    {
        if self.scanline == -1 && self.cycle == 1 {
            self.status_vblank = false;
            self.status_sprite_overflow = false;
            self.status_sprite0_hit = false;
            self.reset_sprite_pattern_shifter();
            self.is_sprite0_hit_possible = false;
            self.is_sprite0_hit_being_rendered = false;
        }
        if self.scanline == 241 && self.cycle == 1 {
            self.status_vblank = true;
            if self.control.enable_nmi() {
                self.call_nmi = true;
            }
        }
        if self.scanline < 240 {
            if (1 <= self.cycle && self.cycle <= 256) || (321 <= self.cycle && self.cycle < 338) {
                self.update_shifters();
                self.fetch_background(cart);
            }
            if self.cycle == 256 {
                if self.mask.is_render_something() {
                    self.vaddress.increase_coarse_y();
                }
            } else if self.cycle == 257 {
                if self.mask.is_render_something() {
                    let nx = self.temp_address.nametable_select_x();
                    self.vaddress.set_nametable_select_x(nx);
                    let cx = self.temp_address.coarse_x();
                    self.vaddress.set_coarse_x(cx);
                    // The hardware holds the sprite-memory pointer at zero
                    // through the sprite fetches, but only while rendering.
                    self.oam_address = 0;
                }
                self.evaluate_sprites(cart);
            }
            if self.scanline == -1 && 280 <= self.cycle && self.cycle < 305 {
                if self.mask.is_render_something() {
                    let ny = self.temp_address.nametable_select_y();
                    self.vaddress.set_nametable_select_y(ny);
                    let cy = self.temp_address.coarse_y();
                    self.vaddress.set_coarse_y(cy);
                    let fy = self.temp_address.fine_y();
                    self.vaddress.set_fine_y(fy);
                }
            }
        }
        if 0 <= self.scanline && self.scanline < 240 && self.cycle < 256 {
            self.compose_pixel(cart);
        }
        let skip = self.scanline == -1 && self.cycle == 339 && self.odd_frame
            && self.mask.is_render_bg();
        self.cycle = self.cycle + 1;
        if self.cycle >= 341 || (skip && self.cycle == 340) {
            self.cycle = 0;
            self.scanline = self.scanline + 1;
            if self.scanline >= 261 {
                self.scanline = -1;
                self.done_drawing = true;
                self.odd_frame = !self.odd_frame;
            }
        }
    }
}


impl PPU {
    /// The place value of bit `7 - col` of a pattern byte, so pixels read
    /// left to right.
    fn column_weight(col: usize) -> (r: usize)
        requires
            col < 8,
        ensures
            1 <= r <= 128,
    {
        match col {
            0 => 128,
            1 => 64,
            2 => 32,
            3 => 16,
            4 => 8,
            5 => 4,
            6 => 2,
            _ => 1,
        }
    }

    /// Render one tile of a pattern table into sixty-four colours, row by
    /// row, through the first background palette.
    pub fn debug_pattern(&self, cart: &mut Cartridge, base: usize, x: usize, y: usize) -> (r: Vec<
        PPUColor,
    >)
        requires
            self.wf(),
            old(cart).wf(),
            base < 2,
            x < 16,
            y < 16,
        ensures
            r@.len() == 64,
            final(cart).wf(),
            *final(cart) == (Cartridge {
                use_cartridge_data: final(cart).use_cartridge_data,
                ..*old(cart)
            }),
    {
        let ghost cart_pre = *cart;
        let mut pattern: Vec<PPUColor> = Vec::new();
        let offset = y * 256 + x * 16;
        let mut k: usize = 0;
        while k < 64
            invariant
                k <= 64,
                pattern@.len() == k,
                offset == y * 256 + x * 16,
                base < 2,
                x < 16,
                y < 16,
                self.wf(),
                cart.wf(),
                *cart == (Cartridge { use_cartridge_data: cart.use_cartridge_data, ..cart_pre }),
            decreases 64 - k,
        {
            let row = k / 8;
            let col = k % 8;
            let real_base = base * 0x1000 + offset + row;
            let lsb = self.ppu_read(cart, real_base, true);
            let msb = self.ppu_read(cart, real_base + 8, true);
            let weight = Self::column_weight(col);
            let pixel = ((msb as usize / weight) % 2) * 2 + (lsb as usize / weight) % 2;
            pattern.push(self.get_color(cart, 0, pixel));
            k = k + 1;
        }
        pattern
    }

    /// Render a whole pattern table, 16 by 16 tiles, into one of the two
    /// debug canvases, through the palette given.
    pub fn set_debug_pattern_screen(&mut self, cart: &mut Cartridge, index: usize, palette: usize)
        requires
            old(self).wf(),
            old(cart).wf(),
            index < 2,
            palette < 8,
        ensures
            final(self).wf(),
            final(cart).wf(),
            *final(self) == (PPU {
                screen_debug_pattern: final(self).screen_debug_pattern,
                ..*old(self)
            }),
            *final(cart) == (Cartridge {
                use_cartridge_data: final(cart).use_cartridge_data,
                ..*old(cart)
            }),
    {
        let ghost cart_pre = *cart;
        let mut colors: Vec<PPUColor> = Vec::new();
        let mut k: usize = 0;
        while k < 16384
            invariant
                k <= 16384,
                colors@.len() == k,
                index < 2,
                palette < 8,
                self.wf(),
                cart.wf(),
                *cart == (Cartridge { use_cartridge_data: cart.use_cartridge_data, ..cart_pre }),
            decreases 16384 - k,
        {
            let col = k % 8;
            let row = (k / 8) % 8;
            let tile_x = (k / 64) % 16;
            let tile_y = k / 1024;
            let real_base = index * 0x1000 + tile_y * 256 + tile_x * 16 + row;
            let lsb = self.ppu_read(cart, real_base, true);
            let msb = self.ppu_read(cart, real_base + 8, true);
            let weight = Self::column_weight(col);
            let pixel = ((msb as usize / weight) % 2) * 2 + (lsb as usize / weight) % 2;
            colors.push(self.get_color(cart, palette, pixel));
            k = k + 1;
        }
        let ghost pre = *self;
        let mut canvas = self.screen_debug_pattern.remove(index);
        let mut k: usize = 0;
        while k < 16384
            invariant
                k <= 16384,
                colors@.len() == 16384,
                canvas.wf(),
                canvas.width == 128,
                canvas.height == 128,
                *self == (PPU { screen_debug_pattern: self.screen_debug_pattern, ..pre }),
                self.screen_debug_pattern@ == pre.screen_debug_pattern@.remove(index as int),
            decreases 16384 - k,
        {
            let col = k % 8;
            let row = (k / 8) % 8;
            let tile_x = (k / 64) % 16;
            let tile_y = k / 1024;
            let px = tile_x * 8 + (7 - col);
            let py = tile_y * 8 + row;
            canvas.set_pixel(px, py, colors[k]);
            k = k + 1;
        }
        self.screen_debug_pattern.insert(index, canvas);
        proof {
            assert(final(self).screen_debug_pattern@ =~= pre.screen_debug_pattern@.remove(
                index as int,
            ).insert(index as int, canvas));
            assert forall|i: int|
                0 <= i < 2 implies (#[trigger] final(self).screen_debug_pattern@[i]).wf() && final(self).screen_debug_pattern@[i].width == 128 && final(self).screen_debug_pattern@[i].height
                == 128 by {
                if i != index {
                    assert(final(self).screen_debug_pattern@[i] == pre.screen_debug_pattern@[i]);
                }
            }
        }
    }
}


/// The port state after a run of data-port writes, first byte first.
pub open spec fn data_port_w2007_seq(p: DataPortView, m: MirroringMode, vals: Seq<u8>) -> DataPortView
    decreases vals.len(),
{
    if vals.len() == 0 {
        p
    } else {
        data_port_w2007_seq(
            data_port_w2007(p, m, vals[0]),
            m,
            vals.subrange(1, vals.len() as int),
        )
    }
}

/// The bytes a run of data-port reads hands back, in order.
pub open spec fn data_port_r2007_values(
    p: DataPortView,
    m: MirroringMode,
    chr: Seq<u8>,
    n: nat,
) -> Seq<u8>
    decreases n,
{
    if n == 0 {
        Seq::empty()
    } else {
        let step = data_port_r2007(p, m, chr);
        seq![step.1] + data_port_r2007_values(step.0, m, chr, (n - 1) as nat)
    }
}

/// Distinct nametable addresses within one kibibyte-aligned block select
/// distinct cells, under every mirroring mode: the cell number keeps the
/// address's offset within the block.
proof fn lemma_nt_index_injective(m: MirroringMode, x: int, y: int)
    requires
        x != y,
        0 <= x,
        0 <= y,
        x / 0x400 == y / 0x400,
    ensures
        nt_index(m, x) != nt_index(m, y),
{
    lemma_nt_index_offset(m, x);
    lemma_nt_index_offset(m, y);
    vstd::arithmetic::div_mod::lemma_fundamental_div_mod(x, 0x400);
    vstd::arithmetic::div_mod::lemma_fundamental_div_mod(y, 0x400);
}

/// A nametable cell number keeps its address's offset within the kibibyte
/// block.
proof fn lemma_nt_index_offset(m: MirroringMode, x: int)
    requires
        0 <= x,
    ensures
        nt_index(m, x) % 0x400 == x % 0x400,
{
    vstd::arithmetic::div_mod::lemma_mod_mod(x, 0x400, 4);
    let na = x % 0x1000;
    let bank: int = if m is Horizontal {
        na / 0x800
    } else if m is Vertical {
        (na / 0x400) % 2
    } else {
        0
    };
    vstd::arithmetic::div_mod::lemma_mod_multiples_vanish(bank, na % 0x400, 0x400);
}

/// What a run of data-port writes does to the nametable when the whole run
/// stays inside one kibibyte block of the nametable area with the one-byte
/// step: each written cell holds its byte, every other cell is untouched,
/// and the live address ends just past the run.
proof fn lemma_w2007_seq_effect(p: DataPortView, m: MirroringMode, vals: Seq<u8>)
    requires
        !(m is Hardware),
        !p.increment32,
        p.nametable.len() == 0x800,
        0x2000 <= p.vaddr,
        p.vaddr + vals.len() < 0x3f00,
        vals.len() > 0 ==> p.vaddr / 0x400 == (p.vaddr + vals.len() - 1) / 0x400,
    ensures
        ({
            let q = data_port_w2007_seq(p, m, vals);
            &&& q.vaddr == p.vaddr + vals.len()
            &&& q.latch_hi == p.latch_hi
            &&& q.taddr == p.taddr
            &&& q.buffer == p.buffer
            &&& q.increment32 == p.increment32
            &&& q.palette == p.palette
            &&& q.nametable.len() == 0x800
            &&& forall|i: int|
                0 <= i < vals.len() ==> q.nametable[nt_index(m, p.vaddr + i)] == vals[i]
            &&& forall|j: int|
                0 <= j < 0x800 ==> q.nametable[j] == p.nametable[j] || exists|i: int|
                    0 <= i < vals.len() && j == #[trigger] nt_index(m, p.vaddr + i)
        }),
    decreases vals.len(),
{
    if vals.len() > 0 {
        let p1 = data_port_w2007(p, m, vals[0]);
        let rest = vals.subrange(1, vals.len() as int);
        let idx0 = nt_index(m, p.vaddr);
        assert(0 <= idx0 < 0x800);
        assert(p1.nametable == p.nametable.update(idx0, vals[0]));
        if rest.len() > 0 {
            vstd::arithmetic::div_mod::lemma_div_is_ordered(p.vaddr, p.vaddr + 1, 0x400);
            vstd::arithmetic::div_mod::lemma_div_is_ordered(
                p.vaddr + 1,
                p.vaddr + vals.len() - 1,
                0x400,
            );
        }
        lemma_w2007_seq_effect(p1, m, rest);
        let q = data_port_w2007_seq(p, m, vals);
        assert(q == data_port_w2007_seq(p1, m, rest));
        // the later writes land in other cells, so the first byte stays
        assert(q.nametable[idx0] == vals[0]) by {
            if q.nametable[idx0] != p1.nametable[idx0] {
                let i = choose|i: int|
                    0 <= i < rest.len() && idx0 == #[trigger] nt_index(m, p1.vaddr + i);
                vstd::arithmetic::div_mod::lemma_div_is_ordered(
                    p.vaddr,
                    p.vaddr + 1 + i,
                    0x400,
                );
                vstd::arithmetic::div_mod::lemma_div_is_ordered(
                    p.vaddr + 1 + i,
                    p.vaddr + vals.len() - 1,
                    0x400,
                );
                lemma_nt_index_injective(m, p.vaddr, p.vaddr + 1 + i);
            }
        }
        assert forall|i: int| 0 <= i < vals.len() implies q.nametable[nt_index(m, p.vaddr + i)]
            == vals[i] by {
            if i > 0 {
                assert(q.nametable[nt_index(m, p1.vaddr + (i - 1))] == rest[i - 1]);
            }
        }
        assert forall|j: int| 0 <= j < 0x800 implies q.nametable[j] == p.nametable[j] || exists|
            i: int,
        | 0 <= i < vals.len() && j == #[trigger] nt_index(m, p.vaddr + i) by {
            if q.nametable[j] != p.nametable[j] {
                if q.nametable[j] == p1.nametable[j] {
                    assert(j == idx0);
                    assert(j == nt_index(m, p.vaddr + 0));
                } else {
                    let i = choose|i: int|
                        0 <= i < rest.len() && j == #[trigger] nt_index(m, p1.vaddr + i);
                    assert(j == nt_index(m, p.vaddr + (i + 1)));
                }
            }
        }
    }
}

/// What a run of data-port reads hands back below the palette: the first
/// byte is whatever the buffer held, and every later byte is the nametable
/// cell one step behind the live address, the buffer lag of the port.
#[verifier::rlimit(100)]
proof fn lemma_r2007_values_effect(p: DataPortView, m: MirroringMode, chr: Seq<u8>, n: nat)
    requires
        !(m is Hardware),
        !p.increment32,
        p.nametable.len() == 0x800,
        0x2000 <= p.vaddr,
        p.vaddr + n <= 0x3f00,
    ensures
        ({
            let r = data_port_r2007_values(p, m, chr, n);
            &&& r.len() == n
            &&& n > 0 ==> r[0] == p.buffer
            &&& forall|k: int|
                1 <= k < n ==> r[k] == p.nametable[#[trigger] nt_index(m, p.vaddr + k - 1)]
        }),
    decreases n,
{
    if n > 0 {
        let step = data_port_r2007(p, m, chr);
        assert(step.0.vaddr == p.vaddr + 1);
        assert(step.0.nametable == p.nametable);
        assert(step.0.buffer == p.nametable[nt_index(m, p.vaddr)]);
        assert(step.1 == p.buffer);
        assert(!step.0.increment32);
        lemma_r2007_values_effect(step.0, m, chr, (n - 1) as nat);
        let r = data_port_r2007_values(p, m, chr, n);
        let r1 = data_port_r2007_values(step.0, m, chr, (n - 1) as nat);
        assert(r == seq![step.1] + r1);
        assert forall|k: int| 1 <= k < n implies r[k] == p.nametable[#[trigger] nt_index(
            m,
            p.vaddr + k - 1,
        )] by {
            assert(r[k] == r1[k - 1]);
            if k >= 2 {
                assert(r1[k - 1] == step.0.nametable[nt_index(m, step.0.vaddr + (k - 1) - 1)]);
                assert(step.0.vaddr + (k - 1) - 1 == p.vaddr + k - 1);
            } else {
                assert(r1[0] == step.0.buffer);
            }
        }
    }
}

/// The sequence form of the address and data port round trip, with the
/// one-byte step. From any port state with the write latch fresh: set a
/// nametable address whose run stays inside one kibibyte block and below
/// the palette, write any bytes through the data port, set the same
/// address again, and read the port once to prime the buffer and then once
/// per byte: the bytes come back exactly, whatever the buffer or the
/// memories held before.
#[verifier::rlimit(100)]
pub proof fn lemma_data_port_sequence_round_trip(
    p0: DataPortView,
    m: MirroringMode,
    chr: Seq<u8>,
    hi: u8,
    lo: u8,
    vals: Seq<u8>,
)
    requires
        p0.latch_hi,
        p0.nametable.len() == 0x800,
        p0.palette.len() == 32,
        !(m is Hardware),
        !p0.increment32,
        0 <= p0.taddr < 0x8000,
        vals.len() >= 1,
        0x2000 <= (hi % 64) * 256 + lo,
        (hi % 64) * 256 + lo + vals.len() < 0x3f00,
        ((hi % 64) * 256 + lo) / 0x400 == ((hi % 64) * 256 + lo + vals.len() - 1) / 0x400,
    ensures
        ({
            let p1 = data_port_w2006(data_port_w2006(p0, hi), lo);
            let p2 = data_port_w2007_seq(p1, m, vals);
            let p3 = data_port_w2006(data_port_w2006(p2, hi), lo);
            let reads = data_port_r2007_values(p3, m, chr, (vals.len() + 1) as nat);
            reads.subrange(1, vals.len() as int + 1) == vals
        }),
{
    let a = (hi % 64) * 256 + lo;
    let p1 = data_port_w2006(data_port_w2006(p0, hi), lo);
    assert(((hi % 64) * 256 + p0.taddr % 256) % 256 == p0.taddr % 256) by (nonlinear_arith)
        requires
            0 <= p0.taddr,
    ;
    assert(p1.taddr == a) by (nonlinear_arith)
        requires
            p1.taddr == (hi % 64) * 256 + p0.taddr % 256 - ((hi % 64) * 256 + p0.taddr % 256) % 256
                + lo,
            ((hi % 64) * 256 + p0.taddr % 256) % 256 == p0.taddr % 256,
            a == (hi % 64) * 256 + lo,
    ;
    assert(p1.vaddr == a);
    assert(!p1.increment32);
    assert(p1.nametable == p0.nametable);
    lemma_w2007_seq_effect(p1, m, vals);
    let p2 = data_port_w2007_seq(p1, m, vals);
    assert(p2.latch_hi);
    let p3 = data_port_w2006(data_port_w2006(p2, hi), lo);
    assert(((hi % 64) * 256 + p2.taddr % 256) % 256 == p2.taddr % 256) by (nonlinear_arith)
        requires
            0 <= p2.taddr,
    ;
    assert(p3.taddr == a) by (nonlinear_arith)
        requires
            p3.taddr == (hi % 64) * 256 + p2.taddr % 256 - ((hi % 64) * 256 + p2.taddr % 256) % 256
                + lo,
            ((hi % 64) * 256 + p2.taddr % 256) % 256 == p2.taddr % 256,
            a == (hi % 64) * 256 + lo,
    ;
    assert(p3.vaddr == a);
    assert(p3.nametable == p2.nametable);
    assert(!p3.increment32);
    lemma_r2007_values_effect(p3, m, chr, (vals.len() + 1) as nat);
    let reads = data_port_r2007_values(p3, m, chr, (vals.len() + 1) as nat);
    assert(reads.len() == vals.len() + 1);
    assert forall|i: int| 0 <= i < vals.len() implies reads.subrange(1, vals.len() as int + 1)[i]
        == vals[i] by {
        assert(reads.subrange(1, vals.len() as int + 1)[i] == reads[i + 1]);
        assert(reads[i + 1] == p3.nametable[nt_index(m, p3.vaddr + (i + 1) - 1)]);
        assert(p3.vaddr + (i + 1) - 1 == p1.vaddr + i);
        assert(p2.nametable[nt_index(m, p1.vaddr + i)] == vals[i]);
    }
    assert(reads.subrange(1, vals.len() as int + 1) =~= vals);
}

} // verus!
