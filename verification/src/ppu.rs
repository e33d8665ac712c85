use vstd::prelude::*;

use crate::bits::array_of;
use crate::bits::flag;
use crate::bits::lemma_array_of;
use crate::bits::with_flag;
use crate::cartridge::Cartridge;
use crate::cartridge::Mirroring;
use crate::mem::Mem;
use crate::ppu::oam::Oam;
use crate::ppu::oam::OamEntry;

pub mod mirror;
pub mod oam;
pub mod palette;
pub mod pattern_buffer;
pub mod timing;

verus! {

/// PPUCTRL, the control register.
#[derive(Debug, Clone, Copy, PartialEq, Eq, Structural)]
pub struct PpuCtrl(pub u8);

impl PpuCtrl {
    #[verifier::allow_in_spec]
    pub fn nametable_x(&self) -> bool
        returns
            flag(self.0, 0x01),
    {
        flag(self.0, 0x01)
    }

    #[verifier::allow_in_spec]
    pub fn nametable_y(&self) -> bool
        returns
            flag(self.0, 0x02),
    {
        flag(self.0, 0x02)
    }

    #[verifier::allow_in_spec]
    pub fn increment_mode(&self) -> bool
        returns
            flag(self.0, 0x04),
    {
        flag(self.0, 0x04)
    }

    #[verifier::allow_in_spec]
    pub fn pattern_sprite(&self) -> bool
        returns
            flag(self.0, 0x08),
    {
        flag(self.0, 0x08)
    }

    #[verifier::allow_in_spec]
    pub fn pattern_background(&self) -> bool
        returns
            flag(self.0, 0x10),
    {
        flag(self.0, 0x10)
    }

    #[verifier::allow_in_spec]
    pub fn sprite_size(&self) -> bool
        returns
            flag(self.0, 0x20),
    {
        flag(self.0, 0x20)
    }

    #[verifier::allow_in_spec]
    pub fn slave_mode(&self) -> bool
        returns
            flag(self.0, 0x40),
    {
        flag(self.0, 0x40)
    }

    #[verifier::allow_in_spec]
    pub fn nmi(&self) -> bool
        returns
            flag(self.0, 0x80),
    {
        flag(self.0, 0x80)
    }
}

/// PPUMASK, the rendering switches.
#[derive(Debug, Clone, Copy, PartialEq, Eq, Structural)]
pub struct PpuMask(pub u8);

impl PpuMask {
    #[verifier::allow_in_spec]
    pub fn greyscale(&self) -> bool
        returns
            flag(self.0, 0x01),
    {
        flag(self.0, 0x01)
    }

    #[verifier::allow_in_spec]
    pub fn render_background_left(&self) -> bool
        returns
            flag(self.0, 0x02),
    {
        flag(self.0, 0x02)
    }

    #[verifier::allow_in_spec]
    pub fn render_sprite_left(&self) -> bool
        returns
            flag(self.0, 0x04),
    {
        flag(self.0, 0x04)
    }

    #[verifier::allow_in_spec]
    pub fn render_background(&self) -> bool
        returns
            flag(self.0, 0x08),
    {
        flag(self.0, 0x08)
    }

    #[verifier::allow_in_spec]
    pub fn render_sprites(&self) -> bool
        returns
            flag(self.0, 0x10),
    {
        flag(self.0, 0x10)
    }

    #[verifier::allow_in_spec]
    pub fn emphasize_red(&self) -> bool
        returns
            flag(self.0, 0x20),
    {
        flag(self.0, 0x20)
    }

    #[verifier::allow_in_spec]
    pub fn emphasize_green(&self) -> bool
        returns
            flag(self.0, 0x40),
    {
        flag(self.0, 0x40)
    }

    #[verifier::allow_in_spec]
    pub fn emphasize_blue(&self) -> bool
        returns
            flag(self.0, 0x80),
    {
        flag(self.0, 0x80)
    }
}

/// PPUSTATUS: sprite overflow in bit 5, sprite-zero hit in bit 6, vertical
/// blank in bit 7.
#[derive(Debug, Clone, Copy, PartialEq, Eq, Structural)]
pub struct PpuStatus(pub u8);

impl PpuStatus {
    #[verifier::allow_in_spec]
    pub fn sprite_overflow(&self) -> bool
        returns
            flag(self.0, 0x20),
    {
        flag(self.0, 0x20)
    }

    #[verifier::allow_in_spec]
    pub fn sprite_zero_hit(&self) -> bool
        returns
            flag(self.0, 0x40),
    {
        flag(self.0, 0x40)
    }

    #[verifier::allow_in_spec]
    pub fn vblank(&self) -> bool
        returns
            flag(self.0, 0x80),
    {
        flag(self.0, 0x80)
    }

    pub fn set_sprite_overflow(&mut self, on: bool)
        ensures
            final(self).0 == with_flag(old(self).0, 0x20, on),
    {
        self.0 = with_flag(self.0, 0x20, on);
    }

    pub fn set_sprite_zero_hit(&mut self, on: bool)
        ensures
            final(self).0 == with_flag(old(self).0, 0x40, on),
    {
        self.0 = with_flag(self.0, 0x40, on);
    }

    pub fn set_vblank(&mut self, on: bool)
        ensures
            final(self).0 == with_flag(old(self).0, 0x80, on),
    {
        self.0 = with_flag(self.0, 0x80, on);
    }
}

/// The registers that the CPU sees at 0x2000 to 0x2007.
#[derive(Debug, Clone, Copy, PartialEq, Eq, Structural)]
pub struct PpuRegisters {
    pub ctrl: PpuCtrl,
    pub mask: PpuMask,
    pub status: PpuStatus,
    pub oam_addr: u8,
    pub oam_data: u8,
    pub scroll: u8,
    pub addr: u8,
    pub data: u8,
}

impl Default for PpuRegisters {
    fn default() -> (r: Self)
        ensures
            r == PpuRegisters::spec_default(),
    {
        PpuRegisters {
            ctrl: PpuCtrl(0),
            mask: PpuMask(0),
            status: PpuStatus(0),
            oam_addr: 0,
            oam_data: 0,
            scroll: 0,
            addr: 0,
            data: 0,
        }
    }
}

impl PpuRegisters {
    pub open spec fn spec_default() -> Self {
        PpuRegisters {
            ctrl: PpuCtrl(0),
            mask: PpuMask(0),
            status: PpuStatus(0),
            oam_addr: 0,
            oam_data: 0,
            scroll: 0,
            addr: 0,
            data: 0,
        }
    }
}

/// A VRAM address register in the scroll layout: coarse x in bits 0 to 4,
/// coarse y in bits 5 to 9, the name table in bits 10 and 11, fine y in bits
/// 12 to 14.
#[derive(Debug, Clone, Copy, PartialEq, Eq, Structural)]
pub struct LoopyRegister(pub u16);

impl Default for LoopyRegister {
    fn default() -> (r: Self)
        ensures
            r.0 == 0,
    {
        LoopyRegister(0x0000)
    }
}

impl LoopyRegister {
    #[verifier::allow_in_spec]
    pub fn coarse_x(&self) -> u16
        returns
            self.0 % 32,
    {
        self.0 % 32
    }

    #[verifier::allow_in_spec]
    pub fn coarse_y(&self) -> u16
        returns
            self.0 / 32 % 32,
    {
        self.0 / 32 % 32
    }

    #[verifier::allow_in_spec]
    pub fn nametable_x(&self) -> u16
        returns
            self.0 / 0x400 % 2,
    {
        self.0 / 0x400 % 2
    }

    #[verifier::allow_in_spec]
    pub fn nametable_y(&self) -> u16
        returns
            self.0 / 0x800 % 2,
    {
        self.0 / 0x800 % 2
    }

    #[verifier::allow_in_spec]
    pub fn fine_y(&self) -> u16
        returns
            self.0 / 0x1000 % 8,
    {
        self.0 / 0x1000 % 8
    }

    /// The register with the field of `width` values at unit `unit`
    /// replaced by `value mod width`.
    pub open spec fn spec_with_field(self, unit: int, width: int, value: u16) -> Self {
        LoopyRegister(
            (self.0 - (self.0 as int / unit % width) * unit + (value as int % width) * unit) as u16,
        )
    }

    #[verifier::allow_in_spec]
    pub fn with_coarse_x(self, value: u16) -> Self
        returns
            self.spec_with_field(1, 32, value),
    {
        LoopyRegister(self.0 - self.0 % 32 + value % 32)
    }

    #[verifier::allow_in_spec]
    pub fn with_coarse_y(self, value: u16) -> Self
        returns
            self.spec_with_field(32, 32, value),
    {
        LoopyRegister(self.0 - (self.0 / 32 % 32) * 32 + (value % 32) * 32)
    }

    #[verifier::allow_in_spec]
    pub fn with_nametable_x(self, value: u16) -> Self
        returns
            self.spec_with_field(0x400, 2, value),
    {
        LoopyRegister(self.0 - (self.0 / 0x400 % 2) * 0x400 + (value % 2) * 0x400)
    }

    #[verifier::allow_in_spec]
    pub fn with_nametable_y(self, value: u16) -> Self
        returns
            self.spec_with_field(0x800, 2, value),
    {
        LoopyRegister(self.0 - (self.0 / 0x800 % 2) * 0x800 + (value % 2) * 0x800)
    }

    #[verifier::allow_in_spec]
    pub fn with_fine_y(self, value: u16) -> Self
        returns
            self.spec_with_field(0x1000, 8, value),
    {
        LoopyRegister(self.0 - (self.0 / 0x1000 % 8) * 0x1000 + (value % 8) * 0x1000)
    }

    pub fn set_coarse_x(&mut self, value: u16)
        ensures
            *final(self) == old(self).with_coarse_x(value),
    {
        *self = self.with_coarse_x(value);
    }

    pub fn set_coarse_y(&mut self, value: u16)
        ensures
            *final(self) == old(self).with_coarse_y(value),
    {
        *self = self.with_coarse_y(value);
    }

    pub fn set_nametable_x(&mut self, value: u16)
        ensures
            *final(self) == old(self).with_nametable_x(value),
    {
        *self = self.with_nametable_x(value);
    }

    pub fn set_nametable_y(&mut self, value: u16)
        ensures
            *final(self) == old(self).with_nametable_y(value),
    {
        *self = self.with_nametable_y(value);
    }

    pub fn set_fine_y(&mut self, value: u16)
        ensures
            *final(self) == old(self).with_fine_y(value),
    {
        *self = self.with_fine_y(value);
    }
}

/// The byte `v` with its eight bits in the opposite order.
#[verifier::allow_in_spec]
pub fn reverse_bits(v: u8) -> u8
    returns
        ((v % 2) * 128 + (v / 2 % 2) * 64 + (v / 4 % 2) * 32 + (v / 8 % 2) * 16 + (v / 16 % 2) * 8
            + (v / 32 % 2) * 4 + (v / 64 % 2) * 2 + v / 128) as u8,
{
    (v % 2) * 128 + (v / 2 % 2) * 64 + (v / 4 % 2) * 32 + (v / 8 % 2) * 16 + (v / 16 % 2) * 8 + (v
        / 32 % 2) * 4 + (v / 64 % 2) * 2 + v / 128
}

/// The sprites chosen for one scanline: the first `length` entries of
/// `sprites` count, the others are filler.
#[derive(Debug, Clone, Copy)]
pub struct ScanlineSprites {
    pub sprites: [OamEntry; 8],
    pub length: u8,
}

impl Default for ScanlineSprites {
    fn default() -> (r: Self)
        ensures
            r.length == 0,
            forall|i: int| 0 <= i < 8 ==> r.sprites[i] == OamEntry(0),
    {
        ScanlineSprites { sprites: ScanlineSprites::filled(OamEntry(0)), length: 0 }
    }
}

impl ScanlineSprites {
    /// Eight times the same entry.
    pub fn filled(entry: OamEntry) -> (r: [OamEntry; 8])
        ensures
            forall|i: int| 0 <= i < 8 ==> r[i] == entry,
    {
        // Written entry by entry, so that each one is known to be `entry`.
        let mut sprites = [entry; 8];
        let mut i: usize = 0;
        while i < 8
            invariant
                i <= 8,
                forall|j: int| 0 <= j < i ==> sprites[j] == entry,
            decreases 8 - i,
        {
            sprites[i] = entry;
            i = i + 1;
        }
        sprites
    }

    /// Empties the buffer and fills it with the filler entry.
    pub fn clear(&mut self)
        ensures
            final(self).length == 0,
            forall|i: int| 0 <= i < 8 ==> final(self).sprites[i] == OamEntry(0xFFFF_FFFF),
    {
        self.length = 0;
        self.sprites = ScanlineSprites::filled(OamEntry(0xFFFF_FFFF));
    }

    /// Appends a sprite; a full buffer stays as it is.
    pub fn add_sprite(&mut self, sprite: OamEntry)
        ensures
            old(self).length < 8 ==> final(self).length == old(self).length + 1,
            old(self).length < 8 ==> final(self).sprites@ == old(self).sprites@.update(
                old(self).length as int,
                sprite,
            ),
            old(self).length >= 8 ==> *final(self) == *old(self),
    {
        if self.length < 8 {
            self.sprites[self.length as usize] = sprite;
            self.length += 1;
        }
    }
}

/// The picture processing unit.
pub struct Ppu {
    pub screen_buffer: [[u8; 256]; 240],
    pub registers: PpuRegisters,
    pub name_table: [Mem<0x400>; 2],
    pub palette_table: [u8; 0x20],
    pub oam: Oam,
    pub scanline_sprites: ScanlineSprites,
    pub cycle: i16,
    pub scanline: i16,
    pub frame_complete: bool,
    pub data_buffer: u8,
    pub addr_latch: bool,
    pub nmi: bool,
    pub vram_addr: LoopyRegister,
    pub tram_addr: LoopyRegister,
    pub fine_x: u8,
    pub bg_next_tile_id: u8,
    pub bg_next_tile_attrib: u8,
    pub bg_next_tile_lsb: u8,
    pub bg_next_tile_msb: u8,
    pub bg_shifter_pattern_lo: u16,
    pub bg_shifter_pattern_hi: u16,
    pub bg_shifter_attrib_lo: u16,
    pub bg_shifter_attrib_hi: u16,
    pub sprite_shifter_pattern_lo: [u8; 8],
    pub sprite_shifter_pattern_hi: [u8; 8],
}

impl Default for Ppu {
    /// The unit at power-on: all memory and every register zero, at dot 0
    /// of scanline 0.
    fn default() -> (r: Self)
        ensures
            r.spec_power_on(),
            r.wf(),
    {
        let row = [0u8; 256];
        assert(forall|x: int| 0 <= x < 256 ==> row@[x] == 0u8);
        let screen_buffer = [row; 240];
        assert(forall|y: int| 0 <= y < 240 ==> screen_buffer@[y] == row);
        let palette_table = [0u8; 0x20];
        assert(forall|i: int| 0 <= i < 0x20 ==> palette_table@[i] == 0u8);
        let empty = [0u8; 8];
        assert(forall|i: int| 0 <= i < 8 ==> empty@[i] == 0u8);
        Ppu {
            screen_buffer,
            registers: PpuRegisters::default(),
            name_table: [Mem::<0x400>::default(), Mem::<0x400>::default()],
            palette_table,
            oam: Oam::default(),
            scanline_sprites: ScanlineSprites::default(),
            cycle: 0,
            scanline: 0,
            frame_complete: false,
            data_buffer: 0x00,
            addr_latch: false,
            nmi: false,
            vram_addr: LoopyRegister::default(),
            tram_addr: LoopyRegister::default(),
            fine_x: 0,
            bg_next_tile_id: 0x00,
            bg_next_tile_attrib: 0x00,
            bg_next_tile_lsb: 0x00,
            bg_next_tile_msb: 0x00,
            bg_shifter_pattern_lo: 0x0000,
            bg_shifter_pattern_hi: 0x0000,
            bg_shifter_attrib_lo: 0x0000,
            bg_shifter_attrib_hi: 0x0000,
            sprite_shifter_pattern_lo: empty,
            sprite_shifter_pattern_hi: empty,
        }
    }
}

impl Ppu {
    /// The unit's counters are in range: the dot from 0 to 340, the scanline
    /// from -1 to 260, fine x below 8, at most eight sprites on the line.
    pub open spec fn wf(&self) -> bool {
        &&& 0 <= self.cycle <= 340
        &&& -1 <= self.scanline <= 260
        &&& self.fine_x < 8
        &&& self.scanline_sprites.length <= 8
    }

    /// The unit is as at power-on: all memory and every register zero, no
    /// sprite on the line, dot 0 of scanline 0, no flag raised.
    pub open spec fn spec_power_on(self) -> bool {
        &&& forall|y: int, x: int| 0 <= y < 240 && 0 <= x < 256 ==> self.screen_buffer[y][x] == 0u8
        &&& self.registers == PpuRegisters::spec_default()
        &&& forall|b: int, i: int| 0 <= b < 2 && 0 <= i < 0x400 ==> self.name_table[b]@[i] == 0u8
        &&& forall|i: int| 0 <= i < 0x20 ==> self.palette_table[i] == 0u8
        &&& forall|i: int| 0 <= i < 64 ==> self.oam.entries[i] == OamEntry(0)
        &&& self.scanline_sprites.length == 0
        &&& forall|i: int| 0 <= i < 8 ==> self.scanline_sprites.sprites[i] == OamEntry(0)
        &&& self.cycle == 0
        &&& self.scanline == 0
        &&& !self.frame_complete
        &&& self.data_buffer == 0
        &&& !self.addr_latch
        &&& !self.nmi
        &&& self.vram_addr.0 == 0
        &&& self.tram_addr.0 == 0
        &&& self.fine_x == 0
        &&& self.bg_next_tile_id == 0
        &&& self.bg_next_tile_attrib == 0
        &&& self.bg_next_tile_lsb == 0
        &&& self.bg_next_tile_msb == 0
        &&& self.bg_shifter_pattern_lo == 0
        &&& self.bg_shifter_pattern_hi == 0
        &&& self.bg_shifter_attrib_lo == 0
        &&& self.bg_shifter_attrib_hi == 0
        &&& forall|i: int| 0 <= i < 8 ==> self.sprite_shifter_pattern_lo[i] == 0u8
        &&& forall|i: int| 0 <= i < 8 ==> self.sprite_shifter_pattern_hi[i] == 0u8
    }

    /// Says whether the unit's counters are in range.
    pub fn in_range(&self) -> (r: bool)
        ensures
            r == self.wf(),
    {
        0 <= self.cycle && self.cycle <= 340 && -1 <= self.scanline && self.scanline <= 260
            && self.fine_x < 8 && self.scanline_sprites.length <= 8
    }

    /// Whether background or sprites are switched on.
    #[verifier::allow_in_spec]
    pub fn rendering(&self) -> bool
        returns
            self.registers.mask.render_background() || self.registers.mask.render_sprites(),
    {
        self.registers.mask.render_background() || self.registers.mask.render_sprites()
    }

    /// The address register one tile to the right: coarse x goes up, and
    /// from 31 it wraps to 0 and flips the horizontal name table.
    pub open spec fn spec_scroll_x(v: LoopyRegister) -> LoopyRegister {
        if v.coarse_x() == 31 {
            v.with_coarse_x(0).with_nametable_x((1 - v.nametable_x()) as u16)
        } else {
            v.with_coarse_x((v.coarse_x() + 1) as u16)
        }
    }

    /// The address register one pixel row down: fine y goes up; from 7 it
    /// wraps to 0 and coarse y goes up, which from 29 wraps to 0 and flips
    /// the vertical name table, and from 31 wraps to 0 without a flip.
    pub open spec fn spec_scroll_y(v: LoopyRegister) -> LoopyRegister {
        if v.fine_y() < 7 {
            v.with_fine_y((v.fine_y() + 1) as u16)
        } else {
            let w = v.with_fine_y(0);
            if w.coarse_y() == 29 {
                w.with_coarse_y(0).with_nametable_y((1 - w.nametable_y()) as u16)
            } else if w.coarse_y() == 31 {
                w.with_coarse_y(0)
            } else {
                w.with_coarse_y((w.coarse_y() + 1) as u16)
            }
        }
    }

    pub open spec fn spec_increment_scroll_x(self) -> Self {
        if self.rendering() {
            Ppu { vram_addr: Self::spec_scroll_x(self.vram_addr), ..self }
        } else {
            self
        }
    }

    pub open spec fn spec_increment_scroll_y(self) -> Self {
        if self.rendering() {
            Ppu { vram_addr: Self::spec_scroll_y(self.vram_addr), ..self }
        } else {
            self
        }
    }

    pub open spec fn spec_transfer_addr_x(self) -> Self {
        if self.rendering() {
            Ppu {
                vram_addr: self.vram_addr.with_nametable_x(
                    self.tram_addr.nametable_x(),
                ).with_coarse_x(self.tram_addr.coarse_x()),
                ..self
            }
        } else {
            self
        }
    }

    pub open spec fn spec_transfer_addr_y(self) -> Self {
        if self.rendering() {
            Ppu {
                vram_addr: self.vram_addr.with_fine_y(self.tram_addr.fine_y()).with_nametable_y(
                    self.tram_addr.nametable_y(),
                ).with_coarse_y(self.tram_addr.coarse_y()),
                ..self
            }
        } else {
            self
        }
    }

    /// The background shifters with the next tile in their low bytes: the
    /// two pattern bytes, and each attribute bit spread over eight places.
    pub open spec fn spec_load_background_shifters(self) -> Self {
        Ppu {
            bg_shifter_pattern_lo: (self.bg_shifter_pattern_lo & 0xFF00) | (
            self.bg_next_tile_lsb as u16),
            bg_shifter_pattern_hi: (self.bg_shifter_pattern_hi & 0xFF00) | (
            self.bg_next_tile_msb as u16),
            bg_shifter_attrib_lo: (self.bg_shifter_attrib_lo & 0xFF00) | (if self.bg_next_tile_attrib
                & 0x01 != 0 {
                0xFFu16
            } else {
                0x00u16
            }),
            bg_shifter_attrib_hi: (self.bg_shifter_attrib_hi & 0xFF00) | (if self.bg_next_tile_attrib
                & 0x02 != 0 {
                0xFFu16
            } else {
                0x00u16
            }),
            ..self
        }
    }

    /// Whether the sprite shifters move on this dot.
    pub open spec fn spec_sprites_move(self) -> bool {
        self.registers.mask.render_sprites() && 1 <= self.cycle < 258
    }

    /// Sprite `i` of the line after one dot: while its x counter is above
    /// zero, the counter goes down; after that its patterns shift.
    pub open spec fn spec_sprite_after_dot(self, i: int) -> OamEntry {
        let e = self.scanline_sprites.sprites[i];
        if self.spec_sprites_move() && i < self.scanline_sprites.length && e.x() > 0 {
            e.spec_with_byte(3, (e.x() - 1) as u8)
        } else {
            e
        }
    }

    /// A pattern byte of sprite `i` after one dot.
    pub open spec fn spec_sprite_pattern_after_dot(self, i: int, pattern: u8) -> u8 {
        let e = self.scanline_sprites.sprites[i];
        if self.spec_sprites_move() && i < self.scanline_sprites.length && e.x() == 0 {
            pattern << 1
        } else {
            pattern
        }
    }

    /// The unit after the shifters have moved by one dot: the four
    /// background shifters where the background is on, and the sprites of
    /// the line where sprites are on and the dot is from 1 to 257.
    pub open spec fn spec_update_shifters(self) -> Self {
        let bg = self.registers.mask.render_background();
        Ppu {
            bg_shifter_pattern_lo: if bg {
                self.bg_shifter_pattern_lo << 1
            } else {
                self.bg_shifter_pattern_lo
            },
            bg_shifter_pattern_hi: if bg {
                self.bg_shifter_pattern_hi << 1
            } else {
                self.bg_shifter_pattern_hi
            },
            bg_shifter_attrib_lo: if bg {
                self.bg_shifter_attrib_lo << 1
            } else {
                self.bg_shifter_attrib_lo
            },
            bg_shifter_attrib_hi: if bg {
                self.bg_shifter_attrib_hi << 1
            } else {
                self.bg_shifter_attrib_hi
            },
            scanline_sprites: ScanlineSprites {
                sprites: array_of(Seq::new(8, |i: int| self.spec_sprite_after_dot(i))),
                length: self.scanline_sprites.length,
            },
            sprite_shifter_pattern_lo: array_of(
                Seq::new(
                    8,
                    |i: int|
                        self.spec_sprite_pattern_after_dot(i, self.sprite_shifter_pattern_lo[i]),
                ),
            ),
            sprite_shifter_pattern_hi: array_of(
                Seq::new(
                    8,
                    |i: int|
                        self.spec_sprite_pattern_after_dot(i, self.sprite_shifter_pattern_hi[i]),
                ),
            ),
            ..self
        }
    }

    pub fn increment_scroll_x(&mut self)
        ensures
            *final(self) == old(self).spec_increment_scroll_x(),
    {
        if self.rendering() {
            if self.vram_addr.coarse_x() == 31 {
                self.vram_addr.set_coarse_x(0);
                let flipped_ntx: u16 = 1 - self.vram_addr.nametable_x();
                self.vram_addr.set_nametable_x(flipped_ntx);
            } else {
                let incr_coarse_x: u16 = self.vram_addr.coarse_x() + 1;
                self.vram_addr.set_coarse_x(incr_coarse_x);
            }
        }
    }

    pub fn increment_scroll_y(&mut self)
        ensures
            *final(self) == old(self).spec_increment_scroll_y(),
    {
        if self.rendering() {
            if self.vram_addr.fine_y() < 7 {
                let incr_fine_y: u16 = self.vram_addr.fine_y() + 1;
                self.vram_addr.set_fine_y(incr_fine_y);
            } else {
                self.vram_addr.set_fine_y(0);
                if self.vram_addr.coarse_y() == 29 {
                    self.vram_addr.set_coarse_y(0);
                    let flipped_nty: u16 = 1 - self.vram_addr.nametable_y();
                    self.vram_addr.set_nametable_y(flipped_nty);
                } else if self.vram_addr.coarse_y() == 31 {
                    self.vram_addr.set_coarse_y(0);
                } else {
                    let incr_coarse_y: u16 = self.vram_addr.coarse_y() + 1;
                    self.vram_addr.set_coarse_y(incr_coarse_y);
                }
            }
        }
    }

    pub fn transfer_addr_x(&mut self)
        ensures
            *final(self) == old(self).spec_transfer_addr_x(),
    {
        if self.rendering() {
            self.vram_addr.set_nametable_x(self.tram_addr.nametable_x());
            self.vram_addr.set_coarse_x(self.tram_addr.coarse_x());
        }
    }

    pub fn transfer_addr_y(&mut self)
        ensures
            *final(self) == old(self).spec_transfer_addr_y(),
    {
        if self.rendering() {
            self.vram_addr.set_fine_y(self.tram_addr.fine_y());
            self.vram_addr.set_nametable_y(self.tram_addr.nametable_y());
            self.vram_addr.set_coarse_y(self.tram_addr.coarse_y());
        }
    }

    pub fn load_background_shifters(&mut self)
        ensures
            *final(self) == old(self).spec_load_background_shifters(),
    {
        self.bg_shifter_pattern_lo = (self.bg_shifter_pattern_lo & 0xFF00) | (
        self.bg_next_tile_lsb as u16);
        self.bg_shifter_pattern_hi = (self.bg_shifter_pattern_hi & 0xFF00) | (
        self.bg_next_tile_msb as u16);
        let spread_lo: u16 = if self.bg_next_tile_attrib & 0x01 != 0 {
            0xFF
        } else {
            0x00
        };
        let spread_hi: u16 = if self.bg_next_tile_attrib & 0x02 != 0 {
            0xFF
        } else {
            0x00
        };
        self.bg_shifter_attrib_lo = (self.bg_shifter_attrib_lo & 0xFF00) | spread_lo;
        self.bg_shifter_attrib_hi = (self.bg_shifter_attrib_hi & 0xFF00) | spread_hi;
    }

    pub fn update_shifters(&mut self)
        requires
            old(self).scanline_sprites.length <= 8,
        ensures
            *final(self) == old(self).spec_update_shifters(),
    {
        let ghost before = *self;
        if self.registers.mask.render_background() {
            self.bg_shifter_pattern_lo = self.bg_shifter_pattern_lo << 1;
            self.bg_shifter_pattern_hi = self.bg_shifter_pattern_hi << 1;
            self.bg_shifter_attrib_lo = self.bg_shifter_attrib_lo << 1;
            self.bg_shifter_attrib_hi = self.bg_shifter_attrib_hi << 1;
        }
        if self.registers.mask.render_sprites() && self.cycle >= 1 && self.cycle < 258 {
            let mut i: usize = 0;
            while i < self.scanline_sprites.length as usize
                invariant
                    i <= self.scanline_sprites.length <= 8,
                    before.spec_sprites_move(),
                    self.scanline_sprites.length == before.scanline_sprites.length,
                    forall|j: int|
                        0 <= j < i ==> self.scanline_sprites.sprites[j]
                            == before.spec_sprite_after_dot(j),
                    forall|j: int|
                        0 <= j < i ==> self.sprite_shifter_pattern_lo[j]
                            == before.spec_sprite_pattern_after_dot(
                            j,
                            before.sprite_shifter_pattern_lo[j],
                        ),
                    forall|j: int|
                        0 <= j < i ==> self.sprite_shifter_pattern_hi[j]
                            == before.spec_sprite_pattern_after_dot(
                            j,
                            before.sprite_shifter_pattern_hi[j],
                        ),
                    forall|j: int|
                        i <= j < 8 ==> self.scanline_sprites.sprites[j]
                            == before.scanline_sprites.sprites[j],
                    forall|j: int|
                        i <= j < 8 ==> self.sprite_shifter_pattern_lo[j]
                            == before.sprite_shifter_pattern_lo[j],
                    forall|j: int|
                        i <= j < 8 ==> self.sprite_shifter_pattern_hi[j]
                            == before.sprite_shifter_pattern_hi[j],
                    *self == (Ppu {
                        scanline_sprites: self.scanline_sprites,
                        sprite_shifter_pattern_lo: self.sprite_shifter_pattern_lo,
                        sprite_shifter_pattern_hi: self.sprite_shifter_pattern_hi,
                        ..before.spec_update_shifters()
                    }),
                decreases 8 - i,
            {
                let mut sprite = self.scanline_sprites.sprites[i];
                if sprite.x() > 0 {
                    sprite.set_x(sprite.x() - 1);
                    self.scanline_sprites.sprites[i] = sprite;
                } else {
                    self.sprite_shifter_pattern_lo[i] = self.sprite_shifter_pattern_lo[i] << 1;
                    self.sprite_shifter_pattern_hi[i] = self.sprite_shifter_pattern_hi[i] << 1;
                }
                i = i + 1;
            }
        }
        proof {
            let after = before.spec_update_shifters();
            assert(self.scanline_sprites.sprites@ =~= Seq::new(
                8,
                |i: int| before.spec_sprite_after_dot(i),
            ));
            assert(self.sprite_shifter_pattern_lo@ =~= Seq::new(
                8,
                |i: int|
                    before.spec_sprite_pattern_after_dot(i, before.sprite_shifter_pattern_lo[i]),
            ));
            assert(self.sprite_shifter_pattern_hi@ =~= Seq::new(
                8,
                |i: int|
                    before.spec_sprite_pattern_after_dot(i, before.sprite_shifter_pattern_hi[i]),
            ));
            lemma_array_of(self.scanline_sprites.sprites);
            lemma_array_of(self.sprite_shifter_pattern_lo);
            lemma_array_of(self.sprite_shifter_pattern_hi);
        }
    }
}

impl Ppu {
    /// Whether a sprite covers `scanline`: the line is at most 7 rows, or 15
    /// for tall sprites, below the sprite's y.
    pub open spec fn spec_on_line(e: OamEntry, scanline: i16, tall: bool) -> bool {
        let diff = scanline - e.y();
        0 <= diff && diff < (if tall {
            16int
        } else {
            8int
        })
    }

    /// The test that picks the sprites of the current scanline.
    pub open spec fn spec_line_test(self) -> spec_fn(OamEntry) -> bool {
        |e: OamEntry| Self::spec_on_line(e, self.scanline, self.registers.ctrl.sprite_size())
    }

    /// All sprites that cover the current scanline, in memory order.
    pub open spec fn spec_line_candidates(self) -> Seq<OamEntry> {
        self.oam.entries@.filter(self.spec_line_test())
    }

    /// The unit after sprite evaluation: the first eight candidates fill the
    /// line buffer, filler follows them, and a ninth candidate raises the
    /// overflow flag.
    pub open spec fn spec_evaluate_sprites(self) -> Self {
        let q = self.spec_line_candidates();
        Ppu {
            scanline_sprites: ScanlineSprites {
                sprites: array_of(
                    Seq::new(
                        8,
                        |i: int|
                            if i < q.len() {
                                q[i]
                            } else {
                                OamEntry(0xFFFF_FFFF)
                            },
                    ),
                ),
                length: if q.len() < 8 {
                    q.len() as u8
                } else {
                    8u8
                },
            },
            registers: PpuRegisters {
                status: PpuStatus(with_flag(self.registers.status.0, 0x20, q.len() > 8)),
                ..self.registers
            },
            ..self
        }
    }

    pub fn evaluate_sprites(&mut self)
        ensures
            *final(self) == old(self).spec_evaluate_sprites(),
            final(self).scanline_sprites.length <= 8,
    {
        let ghost before = *self;
        let ghost test = before.spec_line_test();
        let tall = self.registers.ctrl.sprite_size();
        let size: i16 = if tall {
            16
        } else {
            8
        };
        let mut found = ScanlineSprites {
            sprites: ScanlineSprites::filled(OamEntry(0xFFFF_FFFF)),
            length: 0,
        };
        let mut count: usize = 0;
        let mut i: usize = 0;
        assert(before.oam.entries@.subrange(0, 0).filter(test).len() == 0) by {
            reveal(Seq::filter);
        }
        while i < 64
            invariant
                i <= 64,
                count <= i,
                *self == before,
                size == (if tall {
                    16i16
                } else {
                    8i16
                }),
                tall == before.registers.ctrl.sprite_size(),
                test == before.spec_line_test(),
                count == before.oam.entries@.subrange(0, i as int).filter(test).len(),
                found.length == (if count < 8 {
                    count
                } else {
                    8
                }),
                forall|j: int|
                    0 <= j < found.length ==> found.sprites[j] == before.oam.entries@.subrange(
                        0,
                        i as int,
                    ).filter(test)[j],
                forall|j: int| found.length <= j < 8 ==> found.sprites[j] == OamEntry(0xFFFF_FFFF),
            decreases 64 - i,
        {
            let entry = self.oam.entries[i];
            let diff: i32 = self.scanline as i32 - entry.y() as i32;
            let hit = diff >= 0 && diff < size as i32;
            proof {
                reveal(Seq::filter);
                let s = before.oam.entries@.subrange(0, i + 1);
                assert(s.drop_last() =~= before.oam.entries@.subrange(0, i as int));
                assert(s.last() == entry);
                assert(hit == test(entry));
            }
            if hit {
                found.add_sprite(entry);
                count = count + 1;
            }
            i = i + 1;
        }
        assert(before.oam.entries@.subrange(0, 64) =~= before.oam.entries@);
        self.registers.status.set_sprite_overflow(count > 8);
        self.scanline_sprites = found;
        proof {
            let q = before.spec_line_candidates();
            assert(found.sprites@ =~= Seq::new(
                8,
                |i: int|
                    if i < q.len() {
                        q[i]
                    } else {
                        OamEntry(0xFFFF_FFFF)
                    },
            ));
            lemma_array_of(found.sprites);
        }
    }

    /// The pixel and palette of the background at the current dot: bit
    /// `15 - fine_x` of each shifter, or nothing with the background off.
    pub open spec fn spec_background_pixel(self) -> (u8, u8) {
        if self.registers.mask.render_background() {
            let bit_mux: u16 = 0x8000u16 >> self.fine_x;
            let px0: u8 = if self.bg_shifter_pattern_lo & bit_mux > 0 {
                1
            } else {
                0
            };
            let px1: u8 = if self.bg_shifter_pattern_hi & bit_mux > 0 {
                2
            } else {
                0
            };
            let pl0: u8 = if self.bg_shifter_attrib_lo & bit_mux > 0 {
                1
            } else {
                0
            };
            let pl1: u8 = if self.bg_shifter_attrib_hi & bit_mux > 0 {
                2
            } else {
                0
            };
            ((px0 + px1) as u8, (pl0 + pl1) as u8)
        } else {
            (0, 0)
        }
    }

    /// The pixel that sprite `i` shows at the current dot: the top bits of
    /// its shifters once its x counter is zero, else nothing.
    pub open spec fn spec_sprite_pixel(self, i: int) -> u8 {
        if self.scanline_sprites.sprites[i].x() == 0 {
            ((if self.sprite_shifter_pattern_lo[i] & 0x80 > 0 {
                1int
            } else {
                0int
            }) + (if self.sprite_shifter_pattern_hi[i] & 0x80 > 0 {
                2int
            } else {
                0int
            })) as u8
        } else {
            0
        }
    }

    /// Pixel, palette and priority of the first sprite from `from` on that
    /// shows a pixel; the palette is the attribute's low two bits plus 4,
    /// and the sprite is in front when attribute bit 5 is clear.
    pub open spec fn spec_first_sprite(self, from: int) -> (u8, u8, bool)
        decreases 8 - from,
    {
        if from < 0 || from >= self.scanline_sprites.length || from >= 8 {
            (0, 0, false)
        } else if self.spec_sprite_pixel(from) != 0 {
            let attr = self.scanline_sprites.sprites[from].attribute();
            (self.spec_sprite_pixel(from), (attr % 4 + 4) as u8, attr & 0x20 == 0)
        } else {
            self.spec_first_sprite(from + 1)
        }
    }

    /// The pixel and palette that the sprites give at the current dot, with
    /// the priority.
    pub open spec fn spec_foreground_pixel(self) -> (u8, u8, bool) {
        if self.registers.mask.render_sprites() {
            self.spec_first_sprite(0)
        } else {
            (0, 0, false)
        }
    }

    /// The choice between background and sprite: a transparent one yields
    /// to the other, and between two opaque ones the priority decides.
    pub open spec fn spec_mux(bg: (u8, u8), fg: (u8, u8, bool)) -> (u8, u8) {
        if bg.0 == 0 && fg.0 == 0 {
            (0, 0)
        } else if bg.0 == 0 {
            (fg.0, fg.1)
        } else if fg.0 == 0 {
            (bg.0, bg.1)
        } else if fg.2 {
            (fg.0, fg.1)
        } else {
            (bg.0, bg.1)
        }
    }

    /// Pixel and palette of the current dot.
    pub open spec fn spec_compose(self) -> (u8, u8) {
        Self::spec_mux(self.spec_background_pixel(), self.spec_foreground_pixel())
    }

    pub fn background_pixel(&self) -> (r: (u8, u8))
        requires
            self.fine_x < 8,
        ensures
            r == self.spec_background_pixel(),
            r.0 < 4,
            r.1 < 4,
    {
        if self.registers.mask.render_background() {
            let bit_mux: u16 = 0x8000u16 >> self.fine_x;
            let px0: u8 = if self.bg_shifter_pattern_lo & bit_mux > 0 {
                1
            } else {
                0
            };
            let px1: u8 = if self.bg_shifter_pattern_hi & bit_mux > 0 {
                2
            } else {
                0
            };
            let pl0: u8 = if self.bg_shifter_attrib_lo & bit_mux > 0 {
                1
            } else {
                0
            };
            let pl1: u8 = if self.bg_shifter_attrib_hi & bit_mux > 0 {
                2
            } else {
                0
            };
            (px0 + px1, pl0 + pl1)
        } else {
            (0, 0)
        }
    }

    pub fn foreground_pixel(&self) -> (r: (u8, u8, bool))
        requires
            self.scanline_sprites.length <= 8,
        ensures
            r == self.spec_foreground_pixel(),
            r.0 < 4,
            r.1 < 8,
    {
        if self.registers.mask.render_sprites() {
            let mut i: usize = 0;
            while i < self.scanline_sprites.length as usize
                invariant
                    i <= self.scanline_sprites.length <= 8,
                    self.registers.mask.render_sprites(),
                    self.spec_first_sprite(0) == self.spec_first_sprite(i as int),
                decreases 8 - i,
            {
                let sprite = self.scanline_sprites.sprites[i];
                if sprite.x() == 0 {
                    let px0: u8 = if self.sprite_shifter_pattern_lo[i] & 0x80 > 0 {
                        1
                    } else {
                        0
                    };
                    let px1: u8 = if self.sprite_shifter_pattern_hi[i] & 0x80 > 0 {
                        2
                    } else {
                        0
                    };
                    let fg_pixel: u8 = px0 + px1;
                    if fg_pixel != 0 {
                        let attr: u8 = sprite.attribute();
                        return (fg_pixel, attr % 4 + 4, attr & 0x20 == 0);
                    }
                }
                i = i + 1;
            }
            (0, 0, false)
        } else {
            (0, 0, false)
        }
    }

    /// The unit with the pixel at column `x` of row `y` set, where that
    /// place is on the screen.
    pub open spec fn spec_set_pixel(self, x: int, y: int, color: u8) -> Self {
        if 0 <= y < 240 && 0 <= x < 256 {
            Ppu {
                screen_buffer: vstd::array::spec_array_update(
                    self.screen_buffer,
                    y,
                    vstd::array::spec_array_update(self.screen_buffer[y], x, color),
                ),
                ..self
            }
        } else {
            self
        }
    }

    pub fn set_pixel(&mut self, x: i16, y: i16, color: u8)
        ensures
            *final(self) == old(self).spec_set_pixel(x as int, y as int, color),
    {
        if 0 <= y && y < 240 && 0 <= x && x < 256 {
            self.screen_buffer[y as usize][x as usize] = color;
        }
    }

    /// The unit at the next dot: after dot 340 the next scanline begins,
    /// and after scanline 260 the pre-render line, with the frame complete.
    pub open spec fn spec_advance(self) -> Self {
        if self.cycle + 1 >= 341 {
            if self.scanline + 1 >= 261 {
                Ppu { cycle: 0, scanline: -1i16, frame_complete: true, ..self }
            } else {
                Ppu { cycle: 0, scanline: (self.scanline + 1) as i16, ..self }
            }
        } else {
            Ppu { cycle: (self.cycle + 1) as i16, ..self }
        }
    }

    pub fn advance(&mut self)
        requires
            old(self).wf(),
        ensures
            *final(self) == old(self).spec_advance(),
            final(self).wf(),
    {
        self.cycle = self.cycle + 1;
        if self.cycle >= 341 {
            self.cycle = 0;
            self.scanline = self.scanline + 1;
            if self.scanline >= 261 {
                self.scanline = -1;
                self.frame_complete = true;
            }
        }
    }

    /// The unit after the start of vertical blank, which is dot 1 of
    /// scanline 241: the flag is set, and with PPUCTRL's NMI bit the NMI
    /// line is raised.
    pub open spec fn spec_vblank(self) -> Self {
        if self.scanline == 241 && self.cycle == 1 {
            Ppu {
                registers: PpuRegisters {
                    status: PpuStatus(with_flag(self.registers.status.0, 0x80, true)),
                    ..self.registers
                },
                nmi: self.nmi || self.registers.ctrl.nmi(),
                ..self
            }
        } else {
            self
        }
    }

    pub fn vblank(&mut self)
        ensures
            *final(self) == old(self).spec_vblank(),
    {
        if self.scanline == 241 && self.cycle == 1 {
            self.registers.status.set_vblank(true);
            if self.registers.ctrl.nmi() {
                self.nmi = true;
            }
        }
    }

    /// The unit after dot 1 of the pre-render line: vertical blank, sprite
    /// overflow and sprite-zero hit are cleared, and the sprite shifters
    /// are emptied.
    pub open spec fn spec_clear_flags(self) -> Self {
        if self.scanline == -1 && self.cycle == 1 {
            Ppu {
                registers: PpuRegisters {
                    status: PpuStatus(
                        with_flag(
                            with_flag(with_flag(self.registers.status.0, 0x80, false), 0x20, false),
                            0x40,
                            false,
                        ),
                    ),
                    ..self.registers
                },
                sprite_shifter_pattern_lo: array_of(Seq::new(8, |i: int| 0u8)),
                sprite_shifter_pattern_hi: array_of(Seq::new(8, |i: int| 0u8)),
                ..self
            }
        } else {
            self
        }
    }

    pub fn clear_flags(&mut self)
        ensures
            *final(self) == old(self).spec_clear_flags(),
    {
        if self.scanline == -1 && self.cycle == 1 {
            self.registers.status.set_vblank(false);
            self.registers.status.set_sprite_overflow(false);
            self.registers.status.set_sprite_zero_hit(false);
            let empty = [0u8; 8];
            assert(forall|i: int| 0 <= i < 8 ==> empty@[i] == 0u8);
            self.sprite_shifter_pattern_lo = empty;
            self.sprite_shifter_pattern_hi = empty;
            proof {
                assert(self.sprite_shifter_pattern_lo@ =~= Seq::new(8, |i: int| 0u8));
                assert(self.sprite_shifter_pattern_hi@ =~= Seq::new(8, |i: int| 0u8));
                lemma_array_of(self.sprite_shifter_pattern_lo);
                lemma_array_of(self.sprite_shifter_pattern_hi);
            }
        }
    }

    /// The unit after the idle dot: with rendering on, dot 0 of scanline 0
    /// is passed over.
    pub open spec fn spec_skip_idle_dot(self) -> Self {
        if self.scanline == 0 && self.cycle == 0 && self.rendering() {
            Ppu { cycle: 1, ..self }
        } else {
            self
        }
    }

    pub fn skip_idle_dot(&mut self)
        ensures
            *final(self) == old(self).spec_skip_idle_dot(),
    {
        if self.scanline == 0 && self.cycle == 0 && self.rendering() {
            self.cycle = 1;
        }
    }

    /// The address of the low pattern byte of a sprite on the current
    /// scanline. The row is the distance of the scanline from the
    /// sprite's y, modulo 8, counted from the bottom with the vertical
    /// flip (attribute bit 7). A sprite of 8 rows takes the pattern table
    /// from PPUCTRL; a tall one takes it from bit 0 of its tile number, and
    /// the upper or lower of its two tiles by the half the row is in.
    pub open spec fn spec_sprite_pattern_addr(self, sprite: OamEntry) -> u16 {
        let diff = self.scanline - sprite.y();
        let row = (diff + 256) % 8;
        let flipped = sprite.attribute() & 0x80 != 0;
        let line = if flipped {
            7 - row
        } else {
            row
        };
        if !self.registers.ctrl.sprite_size() {
            ((if self.registers.ctrl.pattern_sprite() {
                0x1000int
            } else {
                0int
            }) + sprite.tile_id() * 16 + line) as u16
        } else {
            let top = 0 <= diff < 8;
            let second = (top && flipped) || (!top && !flipped);
            ((sprite.tile_id() % 2) * 0x1000 + (sprite.tile_id() - sprite.tile_id() % 2 + (
            if second {
                1int
            } else {
                0int
            })) * 16 + line) as u16
        }
    }

    pub fn sprite_pattern_addr(&self, sprite: OamEntry) -> (r: u16)
        requires
            -1 <= self.scanline <= 260,
        ensures
            r == self.spec_sprite_pattern_addr(sprite),
            r <= 0x1FF7,
    {
        let diff: i16 = self.scanline - sprite.y() as i16;
        let row: u16 = ((diff + 256) % 8) as u16;
        let flipped = sprite.attribute() & 0x80 != 0;
        let line: u16 = if flipped {
            7 - row
        } else {
            row
        };
        let tile: u16 = sprite.tile_id() as u16;
        if !self.registers.ctrl.sprite_size() {
            let table: u16 = if self.registers.ctrl.pattern_sprite() {
                0x1000
            } else {
                0
            };
            table + tile * 16 + line
        } else {
            let top = 0 <= diff && diff < 8;
            let second: u16 = if (top && flipped) || (!top && !flipped) {
                1
            } else {
                0
            };
            (tile % 2) * 0x1000 + (tile - tile % 2 + second) * 16 + line
        }
    }
}

/// The place in palette RAM that a palette address falls on: the address
/// modulo 32, with 0x10, 0x14, 0x18 and 0x1C folded onto 0x00, 0x04, 0x08 and
/// 0x0C.
#[verifier::allow_in_spec]
pub fn palette_slot(addr: u16) -> usize
    returns
        (if addr % 32 == 0x10 {
            0x00usize
        } else if addr % 32 == 0x14 {
            0x04usize
        } else if addr % 32 == 0x18 {
            0x08usize
        } else if addr % 32 == 0x1C {
            0x0Cusize
        } else {
            (addr % 32) as usize
        }),
{
    let a: u16 = addr % 32;
    if a == 0x10 {
        0x00
    } else if a == 0x14 {
        0x04
    } else if a == 0x18 {
        0x08
    } else if a == 0x1C {
        0x0C
    } else {
        a as usize
    }
}

/// The picture processing unit together with the cartridge that it reads
/// its patterns from, if one is inserted.
pub struct PpuQueryItem {
    pub ppu: Ppu,
    pub cartridge: Option<Cartridge>,
}

impl Default for PpuQueryItem {
    /// The unit at power-on, with no cartridge.
    fn default() -> (r: Self)
        ensures
            r.ppu.spec_power_on(),
            r.ppu.wf(),
            r.cartridge.is_none(),
    {
        PpuQueryItem { ppu: Ppu::default(), cartridge: None }
    }
}

impl PpuQueryItem {
    /// `after` is at the same dot of the same frame as this state, with
    /// the same frame-complete flag, and its counters are in range where
    /// they are in this state.
    pub open spec fn spec_same_dot(self, after: Self) -> bool {
        &&& after.ppu.cycle == self.ppu.cycle
        &&& after.ppu.scanline == self.ppu.scanline
        &&& after.ppu.frame_complete == self.ppu.frame_complete
        &&& self.ppu.wf() ==> after.ppu.wf()
    }

    /// The mirroring in force: the cartridge's, and horizontal with no
    /// cartridge.
    pub open spec fn spec_mirroring(self) -> Mirroring {
        match self.cartridge {
            Some(c) => c.spec_mirroring(),
            None => Mirroring::Horizontal,
        }
    }

    /// What the cartridge answers to a PPU read, if anything.
    pub open spec fn spec_cartridge_read(self, addr: u16) -> Option<u8> {
        match self.cartridge {
            Some(c) => c.mapper.spec_ppu_map_read(addr),
            None => None,
        }
    }

    /// The byte at `addr` in the PPU's address space: pattern memory from
    /// the cartridge below 0x2000 (zero where it answers nothing); name
    /// tables from 0x2000 to 0x2FFF, from the cartridge where it answers and
    /// else from the bank that the mirroring gives; palette RAM from 0x3F00
    /// to 0x3FFF; zero elsewhere.
    pub open spec fn spec_ppu_read(self, addr: u16) -> u8 {
        if addr < 0x2000 {
            match self.spec_cartridge_read(addr) {
                Some(d) => d,
                None => 0,
            }
        } else if addr < 0x3000 {
            match self.spec_cartridge_read(addr) {
                Some(d) => d,
                None => self.ppu.name_table[self.spec_mirroring().spec_bank(addr)].spec_read(addr),
            }
        } else if 0x3F00 <= addr <= 0x3FFF {
            self.ppu.palette_table[palette_slot(addr) as int]
        } else {
            0
        }
    }

    /// The state with `data` written to the name table that the mirroring
    /// `m` gives for `addr`.
    pub open spec fn spec_name_table_write(self, m: Mirroring, addr: u16, data: u8) -> Self {
        PpuQueryItem {
            ppu: Ppu {
                name_table: vstd::array::spec_array_update(
                    self.ppu.name_table,
                    m.spec_bank(addr),
                    self.ppu.name_table[m.spec_bank(addr)].spec_write(addr, data),
                ),
                ..self.ppu
            },
            ..self
        }
    }

    /// The state after a write in the PPU's address space: below 0x2000 the
    /// cartridge gets it; from 0x2000 to 0x2FFF the cartridge gets it, and
    /// where it does not take it the name table that the mirroring gives;
    /// from 0x3F00 to 0x3FFF palette RAM; elsewhere nothing changes.
    pub open spec fn spec_ppu_write(self, addr: u16, data: u8) -> Self {
        if addr < 0x2000 {
            match self.cartridge {
                Some(c) => PpuQueryItem {
                    cartridge: Some(c.spec_ppu_write(addr, data).0),
                    ..self
                },
                None => self,
            }
        } else if addr < 0x3000 {
            match self.cartridge {
                Some(c) => {
                    let (c2, ack) = c.spec_ppu_write(addr, data);
                    let s = PpuQueryItem { cartridge: Some(c2), ..self };
                    if ack {
                        s
                    } else {
                        s.spec_name_table_write(c2.spec_mirroring(), addr, data)
                    }
                },
                None => self.spec_name_table_write(Mirroring::Horizontal, addr, data),
            }
        } else if 0x3F00 <= addr <= 0x3FFF {
            PpuQueryItem {
                ppu: Ppu {
                    palette_table: vstd::array::spec_array_update(
                        self.ppu.palette_table,
                        palette_slot(addr) as int,
                        data,
                    ),
                    ..self.ppu
                },
                ..self
            }
        } else {
            self
        }
    }

    pub fn ppu_read(&self, addr: u16) -> (r: u8)
        ensures
            r == self.spec_ppu_read(addr),
    {
        if addr < 0x2000 {
            match &self.cartridge {
                Some(c) => match c.ppu_read(addr) {
                    Some(d) => d,
                    None => 0,
                },
                None => 0,
            }
        } else if addr < 0x3000 {
            match &self.cartridge {
                Some(c) => match c.ppu_read(addr) {
                    Some(d) => d,
                    None => {
                        let bank_id = c.mirroring().bank(addr);
                        self.ppu.name_table[bank_id].read(addr)
                    },
                },
                None => {
                    let bank_id = Mirroring::Horizontal.bank(addr);
                    self.ppu.name_table[bank_id].read(addr)
                },
            }
        } else if 0x3F00 <= addr && addr <= 0x3FFF {
            self.ppu.palette_table[palette_slot(addr)]
        } else {
            0
        }
    }

    pub fn ppu_write(&mut self, addr: u16, data: u8)
        ensures
            *final(self) == old(self).spec_ppu_write(addr, data),
    {
        if addr < 0x2000 {
            match &mut self.cartridge {
                Some(c) => {
                    let _ = c.ppu_write(addr, data);
                },
                None => {},
            }
        } else if addr < 0x3000 {
            let bank_id: Option<usize> = match &mut self.cartridge {
                Some(c) => {
                    if c.ppu_write(addr, data) {
                        None
                    } else {
                        Some(c.mirroring().bank(addr))
                    }
                },
                None => Some(Mirroring::Horizontal.bank(addr)),
            };
            match bank_id {
                Some(b) => {
                    self.ppu.name_table[b].write(addr, data);
                },
                None => {},
            }
        } else if 0x3F00 <= addr && addr <= 0x3FFF {
            self.ppu.palette_table[palette_slot(addr)] = data;
        }
    }

    /// What stands in the register at `addr mod 8`, as it was last written.
    pub open spec fn spec_peek_register(self, addr: u16) -> u8 {
        let r = self.ppu.registers;
        let reg = addr % 8;
        if reg == 0 {
            r.ctrl.0
        } else if reg == 1 {
            r.mask.0
        } else if reg == 2 {
            r.status.0
        } else if reg == 3 {
            r.oam_addr
        } else if reg == 4 {
            r.oam_data
        } else if reg == 5 {
            r.scroll
        } else if reg == 6 {
            r.addr
        } else {
            r.data
        }
    }

    /// What a look at `addr` from the CPU's side shows, with nothing
    /// changed by the look: a register as it stands from 0x2000 to 0x3FFF,
    /// the cartridge's byte from 0x4020 on, and zero where there is none.
    pub open spec fn spec_peek(self, addr: u16) -> u8 {
        if 0x2000 <= addr <= 0x3FFF {
            self.spec_peek_register(addr)
        } else if addr >= 0x4020 {
            match self.cartridge {
                Some(c) => match c.mapper.spec_cpu_map_read(addr) {
                    Some(d) => d,
                    None => 0,
                },
                None => 0,
            }
        } else {
            0
        }
    }

    pub fn peek_register(&self, addr: u16) -> (r: u8)
        ensures
            r == self.spec_peek_register(addr),
    {
        let reg: u16 = addr % 8;
        if reg == 0 {
            self.ppu.registers.ctrl.0
        } else if reg == 1 {
            self.ppu.registers.mask.0
        } else if reg == 2 {
            self.ppu.registers.status.0
        } else if reg == 3 {
            self.ppu.registers.oam_addr
        } else if reg == 4 {
            self.ppu.registers.oam_data
        } else if reg == 5 {
            self.ppu.registers.scroll
        } else if reg == 6 {
            self.ppu.registers.addr
        } else {
            self.ppu.registers.data
        }
    }

    pub fn peek(&self, addr: u16) -> (r: u8)
        ensures
            r == self.spec_peek(addr),
    {
        if 0x2000 <= addr && addr <= 0x3FFF {
            self.peek_register(addr)
        } else if addr >= 0x4020 {
            match &self.cartridge {
                Some(c) => match c.cpu_read(addr) {
                    Some(d) => d,
                    None => 0,
                },
                None => 0,
            }
        } else {
            0
        }
    }

    pub open spec fn spec_oam_write(self, addr: u8, data: u8) -> Self {
        PpuQueryItem { ppu: Ppu { oam: self.ppu.oam.spec_write_byte(addr, data), ..self.ppu }, ..self }
    }

    pub fn oam_write(&mut self, addr: u8, data: u8)
        ensures
            *final(self) == old(self).spec_oam_write(addr, data),
    {
        self.ppu.oam.write_byte(addr, data);
    }

    pub open spec fn spec_reset(self) -> Self {
        PpuQueryItem {
            ppu: Ppu {
                registers: PpuRegisters {
                    ctrl: PpuCtrl(0),
                    mask: PpuMask(0),
                    scroll: 0,
                    ..self.ppu.registers
                },
                data_buffer: 0,
                addr_latch: false,
                ..self.ppu
            },
            ..self
        }
    }

    /// Clears PPUCTRL, PPUMASK, the scroll register, the read buffer and
    /// the write latch.
    pub fn reset(&mut self)
        ensures
            *final(self) == old(self).spec_reset(),
    {
        self.ppu.registers.ctrl = PpuCtrl(0x00);
        self.ppu.registers.mask = PpuMask(0x00);
        self.ppu.registers.scroll = 0x00;
        self.ppu.data_buffer = 0x00;
        self.ppu.addr_latch = false;
    }

    /// Takes the frame-complete flag: gives it and clears it.
    pub fn frame_complete(&mut self) -> (r: bool)
        ensures
            r == old(self).ppu.frame_complete,
            *final(self) == (PpuQueryItem {
                ppu: Ppu { frame_complete: false, ..old(self).ppu },
                ..*old(self)
            }),
    {
        if self.ppu.frame_complete {
            self.ppu.frame_complete = false;
            true
        } else {
            false
        }
    }

    /// Takes the NMI line: gives it and clears it.
    pub fn nmi(&mut self) -> (r: bool)
        ensures
            r == old(self).ppu.nmi,
            *final(self) == (PpuQueryItem { ppu: Ppu { nmi: false, ..old(self).ppu }, ..*old(self) }),
    {
        let v = self.ppu.nmi;
        self.ppu.nmi = false;
        v
    }

    /// The step by which PPUDATA moves the VRAM address: 32 in the
    /// increment mode of PPUCTRL, else 1.
    pub open spec fn spec_vram_step(self) -> u16 {
        if self.ppu.registers.ctrl.increment_mode() {
            32
        } else {
            1
        }
    }

    /// The state with the VRAM address moved by the PPUDATA step, wrapping
    /// in sixteen bits.
    pub open spec fn spec_step_vram(self) -> Self {
        PpuQueryItem {
            ppu: Ppu {
                vram_addr: LoopyRegister(self.ppu.vram_addr.0.wrapping_add(self.spec_vram_step())),
                ..self.ppu
            },
            ..self
        }
    }

    fn step_vram(&mut self)
        ensures
            *final(self) == old(self).spec_step_vram(),
    {
        let step: u16 = if self.ppu.registers.ctrl.increment_mode() {
            32
        } else {
            1
        };
        self.ppu.vram_addr = LoopyRegister(self.ppu.vram_addr.0.wrapping_add(step));
    }

    /// The state after a CPU read of the register at `addr mod 8`, and
    /// the byte read. Register 2 gives the three status bits over the low
    /// five bits of the read buffer, and clears vertical blank and the
    /// write latch. Register 7 gives palette bytes at once and other bytes
    /// one read late, through the buffer, and then steps the VRAM address.
    /// The other registers give nothing.
    pub open spec fn spec_register_read(self, addr: u16) -> (Self, Option<u8>) {
        if addr % 8 == 2 {
            (
                PpuQueryItem {
                    ppu: Ppu {
                        registers: PpuRegisters {
                            status: PpuStatus(with_flag(self.ppu.registers.status.0, 0x80, false)),
                            ..self.ppu.registers
                        },
                        addr_latch: false,
                        ..self.ppu
                    },
                    ..self
                },
                Some((self.ppu.registers.status.0 & 0xE0) | (self.ppu.data_buffer & 0x1F)),
            )
        } else if addr % 8 == 7 {
            let fetched = self.spec_ppu_read(self.ppu.vram_addr.0);
            let data = if self.ppu.vram_addr.0 >= 0x3F00 {
                fetched
            } else {
                self.ppu.data_buffer
            };
            (
                (PpuQueryItem {
                    ppu: Ppu { data_buffer: fetched, ..self.ppu },
                    ..self
                }).spec_step_vram(),
                Some(data),
            )
        } else {
            (self, None)
        }
    }

    pub fn ppu_register_read(&mut self, addr: u16) -> (r: Option<u8>)
        ensures
            (*final(self), r) == old(self).spec_register_read(addr),
    {
        let reg: u16 = addr % 8;
        if reg == 2 {
            let data = (self.ppu.registers.status.0 & 0xE0) | (self.ppu.data_buffer & 0x1F);
            self.ppu.registers.status.set_vblank(false);
            self.ppu.addr_latch = false;
            Some(data)
        } else if reg == 7 {
            let fetched = self.ppu_read(self.ppu.vram_addr.0);
            let data = if self.ppu.vram_addr.0 >= 0x3F00 {
                fetched
            } else {
                self.ppu.data_buffer
            };
            self.ppu.data_buffer = fetched;
            self.step_vram();
            Some(data)
        } else {
            None
        }
    }

    /// The state after a CPU write of `data` to the register at
    /// `addr mod 8`.
    pub open spec fn spec_register_write(self, addr: u16, data: u8) -> Self {
        let p = self.ppu;
        let reg = addr % 8;
        if reg == 0 {
            PpuQueryItem {
                ppu: Ppu {
                    registers: PpuRegisters { ctrl: PpuCtrl(data), ..p.registers },
                    tram_addr: p.tram_addr.with_nametable_x(
                        if flag(data, 0x01) {
                            1
                        } else {
                            0
                        },
                    ).with_nametable_y(
                        if flag(data, 0x02) {
                            1
                        } else {
                            0
                        },
                    ),
                    ..p
                },
                ..self
            }
        } else if reg == 1 {
            PpuQueryItem {
                ppu: Ppu { registers: PpuRegisters { mask: PpuMask(data), ..p.registers }, ..p },
                ..self
            }
        } else if reg == 2 {
            self
        } else if reg == 3 {
            PpuQueryItem {
                ppu: Ppu { registers: PpuRegisters { oam_addr: data, ..p.registers }, ..p },
                ..self
            }
        } else if reg == 4 {
            PpuQueryItem {
                ppu: Ppu { registers: PpuRegisters { oam_data: data, ..p.registers }, ..p },
                ..self
            }
        } else if reg == 5 {
            if !p.addr_latch {
                PpuQueryItem {
                    ppu: Ppu {
                        fine_x: data % 8,
                        tram_addr: p.tram_addr.with_coarse_x((data / 8) as u16),
                        addr_latch: true,
                        ..p
                    },
                    ..self
                }
            } else {
                PpuQueryItem {
                    ppu: Ppu {
                        tram_addr: p.tram_addr.with_fine_y((data % 8) as u16).with_coarse_y(
                            (data / 8) as u16,
                        ),
                        addr_latch: false,
                        ..p
                    },
                    ..self
                }
            }
        } else if reg == 6 {
            if !p.addr_latch {
                PpuQueryItem {
                    ppu: Ppu {
                        tram_addr: LoopyRegister(
                            (p.tram_addr.0 % 0x100 + (data % 0x40) * 0x100) as u16,
                        ),
                        addr_latch: true,
                        ..p
                    },
                    ..self
                }
            } else {
                let t = LoopyRegister((p.tram_addr.0 - p.tram_addr.0 % 0x100 + data) as u16);
                PpuQueryItem {
                    ppu: Ppu { tram_addr: t, vram_addr: t, addr_latch: false, ..p },
                    ..self
                }
            }
        } else {
            self.spec_ppu_write(p.vram_addr.0, data).spec_step_vram()
        }
    }

    pub fn ppu_register_write(&mut self, addr: u16, data: u8)
        ensures
            *final(self) == old(self).spec_register_write(addr, data),
            old(self).ppu.wf() ==> final(self).ppu.wf(),
    {
        let reg: u16 = addr % 8;
        if reg == 0 {
            self.ppu.registers.ctrl = PpuCtrl(data);
            let ntx: u16 = if self.ppu.registers.ctrl.nametable_x() {
                1
            } else {
                0
            };
            self.ppu.tram_addr.set_nametable_x(ntx);
            let nty: u16 = if self.ppu.registers.ctrl.nametable_y() {
                1
            } else {
                0
            };
            self.ppu.tram_addr.set_nametable_y(nty);
        } else if reg == 1 {
            self.ppu.registers.mask = PpuMask(data);
        } else if reg == 2 {
        } else if reg == 3 {
            self.ppu.registers.oam_addr = data;
        } else if reg == 4 {
            self.ppu.registers.oam_data = data;
        } else if reg == 5 {
            if !self.ppu.addr_latch {
                self.ppu.fine_x = data % 8;
                self.ppu.tram_addr.set_coarse_x((data / 8) as u16);
                self.ppu.addr_latch = true;
            } else {
                self.ppu.tram_addr.set_fine_y((data % 8) as u16);
                self.ppu.tram_addr.set_coarse_y((data / 8) as u16);
                self.ppu.addr_latch = false;
            }
        } else if reg == 6 {
            if !self.ppu.addr_latch {
                self.ppu.tram_addr = LoopyRegister(
                    self.ppu.tram_addr.0 % 0x100 + ((data % 0x40) as u16) * 0x100,
                );
                self.ppu.addr_latch = true;
            } else {
                self.ppu.tram_addr = LoopyRegister(
                    self.ppu.tram_addr.0 - self.ppu.tram_addr.0 % 0x100 + data as u16,
                );
                self.ppu.vram_addr = self.ppu.tram_addr;
                self.ppu.addr_latch = false;
            }
        } else {
            self.ppu_write(self.ppu.vram_addr.0, data);
            self.step_vram();
        }
    }

    /// The state after a CPU read at `addr`, and the byte read: a register
    /// from 0x2000 to 0x3FFF (the read buffer stands in where the register
    /// gives nothing), the cartridge from 0x4020 on, nothing elsewhere.
    #[verifier::opaque]
    pub open spec fn spec_cpu_read(self, addr: u16) -> (Self, Option<u8>) {
        if 0x2000 <= addr <= 0x3FFF {
            let (s, r) = self.spec_register_read(addr);
            (
                s,
                Some(
                    match r {
                        Some(d) => d,
                        None => s.ppu.data_buffer,
                    },
                ),
            )
        } else if addr >= 0x4020 {
            (
                self,
                match self.cartridge {
                    Some(c) => c.mapper.spec_cpu_map_read(addr),
                    None => None,
                },
            )
        } else {
            (self, None)
        }
    }

    pub fn cpu_read(&mut self, addr: u16) -> (r: Option<u8>)
        ensures
            (*final(self), r) == old(self).spec_cpu_read(addr),
            old(self).spec_same_dot(*final(self)),
    {
        proof {
            reveal(PpuQueryItem::spec_cpu_read);
        }
        if 0x2000 <= addr && addr <= 0x3FFF {
            match self.ppu_register_read(addr) {
                Some(d) => Some(d),
                None => Some(self.ppu.data_buffer),
            }
        } else if addr >= 0x4020 {
            match &self.cartridge {
                Some(c) => c.cpu_read(addr),
                None => None,
            }
        } else {
            None
        }
    }

    /// The state after a CPU write at `addr`: a register from 0x2000 to
    /// 0x3FFF, the cartridge from 0x4020 on, nothing elsewhere.
    #[verifier::opaque]
    pub open spec fn spec_cpu_write(self, addr: u16, data: u8) -> Self {
        if 0x2000 <= addr <= 0x3FFF {
            self.spec_register_write(addr, data)
        } else if addr >= 0x4020 {
            match self.cartridge {
                Some(c) => PpuQueryItem {
                    cartridge: Some(c.spec_cpu_write(addr, data).0),
                    ..self
                },
                None => self,
            }
        } else {
            self
        }
    }

    pub fn cpu_write(&mut self, addr: u16, data: u8)
        ensures
            *final(self) == old(self).spec_cpu_write(addr, data),
            old(self).spec_same_dot(*final(self)),
    {
        proof {
            reveal(PpuQueryItem::spec_cpu_write);
        }
        if 0x2000 <= addr && addr <= 0x3FFF {
            self.ppu_register_write(addr, data);
        } else if addr >= 0x4020 {
            match &mut self.cartridge {
                Some(c) => {
                    let _ = c.cpu_write(addr, data);
                },
                None => {},
            }
        }
    }
}

impl PpuQueryItem {
    /// The address of the name-table byte that the VRAM address points at.
    pub open spec fn spec_tile_addr(self) -> u16 {
        (0x2000 + self.ppu.vram_addr.0 % 0x1000) as u16
    }

    /// The address of the attribute byte for the tile that the VRAM
    /// address points at: one byte for each block of four by four tiles.
    pub open spec fn spec_attrib_addr(self) -> u16 {
        let v = self.ppu.vram_addr;
        (0x23C0 + v.nametable_y() * 0x800 + v.nametable_x() * 0x400 + (v.coarse_y() / 4) * 8
            + v.coarse_x() / 4) as u16
    }

    /// The two palette bits for the tile that the VRAM address points at,
    /// out of its block's attribute byte: the upper nibble for the lower two
    /// rows of the block, and in the nibble the upper pair for the right
    /// two columns.
    pub open spec fn spec_attrib_bits(self, byte: u8) -> u8 {
        let v = self.ppu.vram_addr;
        let rows: int = if v.coarse_y() % 4 >= 2 {
            byte as int / 16
        } else {
            byte as int
        };
        let cols: int = if v.coarse_x() % 4 >= 2 {
            rows / 4
        } else {
            rows
        };
        (cols % 4) as u8
    }

    /// The address of the low pattern byte of the next background tile, at
    /// the row that fine y gives; the high byte is eight further.
    pub open spec fn spec_pattern_addr(self) -> u16 {
        ((if self.ppu.registers.ctrl.pattern_background() {
            0x1000int
        } else {
            0int
        }) + self.ppu.bg_next_tile_id * 16 + self.ppu.vram_addr.fine_y()) as u16
    }

    pub open spec fn spec_fetch_tile_id(self) -> Self {
        PpuQueryItem {
            ppu: Ppu { bg_next_tile_id: self.spec_ppu_read(self.spec_tile_addr()), ..self.ppu },
            ..self
        }
    }

    /// The state after the background work of one dot. On dots 2 to 257
    /// and 321 to 337 the shifters move, and by the dot's place in its group
    /// of eight: at 0 the shifters are loaded and the tile number fetched, at
    /// 2 the attribute bits, at 4 the low pattern byte, at 6 the high one,
    /// and at 7 the address moves one tile to the right.
    pub open spec fn spec_fetch_background(self) -> Self {
        let c = self.ppu.cycle;
        if (2 <= c < 258) || (321 <= c < 338) {
            let s = PpuQueryItem { ppu: self.ppu.spec_update_shifters(), ..self };
            let phase = (c - 1) % 8;
            if phase == 0 {
                (PpuQueryItem {
                    ppu: s.ppu.spec_load_background_shifters(),
                    ..s
                }).spec_fetch_tile_id()
            } else if phase == 2 {
                PpuQueryItem {
                    ppu: Ppu {
                        bg_next_tile_attrib: s.spec_attrib_bits(s.spec_ppu_read(s.spec_attrib_addr())),
                        ..s.ppu
                    },
                    ..s
                }
            } else if phase == 4 {
                PpuQueryItem {
                    ppu: Ppu { bg_next_tile_lsb: s.spec_ppu_read(s.spec_pattern_addr()), ..s.ppu },
                    ..s
                }
            } else if phase == 6 {
                PpuQueryItem {
                    ppu: Ppu {
                        bg_next_tile_msb: s.spec_ppu_read((s.spec_pattern_addr() + 8) as u16),
                        ..s.ppu
                    },
                    ..s
                }
            } else if phase == 7 {
                PpuQueryItem { ppu: s.ppu.spec_increment_scroll_x(), ..s }
            } else {
                s
            }
        } else {
            self
        }
    }

    fn fetch_tile_id(&mut self)
        ensures
            *final(self) == old(self).spec_fetch_tile_id(),
    {
        let addr: u16 = 0x2000 + self.ppu.vram_addr.0 % 0x1000;
        self.ppu.bg_next_tile_id = self.ppu_read(addr);
    }

    fn pattern_addr(&self) -> (r: u16)
        ensures
            r == self.spec_pattern_addr(),
            r <= 0x1FF7,
    {
        let table: u16 = if self.ppu.registers.ctrl.pattern_background() {
            0x1000
        } else {
            0
        };
        table + (self.ppu.bg_next_tile_id as u16) * 16 + self.ppu.vram_addr.fine_y()
    }

    pub fn fetch_background(&mut self)
        requires
            old(self).ppu.wf(),
        ensures
            *final(self) == old(self).spec_fetch_background(),
            final(self).ppu.wf(),
    {
        let c: i16 = self.ppu.cycle;
        if (2 <= c && c < 258) || (321 <= c && c < 338) {
            self.ppu.update_shifters();
            let phase: i16 = (c - 1) % 8;
            if phase == 0 {
                self.ppu.load_background_shifters();
                self.fetch_tile_id();
            } else if phase == 2 {
                let v = self.ppu.vram_addr;
                let addr: u16 = 0x23C0 + v.nametable_y() * 0x800 + v.nametable_x() * 0x400 + (
                v.coarse_y() / 4) * 8 + v.coarse_x() / 4;
                let byte: u8 = self.ppu_read(addr);
                let rows: u8 = if v.coarse_y() % 4 >= 2 {
                    byte / 16
                } else {
                    byte
                };
                let cols: u8 = if v.coarse_x() % 4 >= 2 {
                    rows / 4
                } else {
                    rows
                };
                self.ppu.bg_next_tile_attrib = cols % 4;
            } else if phase == 4 {
                let addr = self.pattern_addr();
                self.ppu.bg_next_tile_lsb = self.ppu_read(addr);
            } else if phase == 6 {
                let addr = self.pattern_addr();
                self.ppu.bg_next_tile_msb = self.ppu_read(addr + 8);
            } else if phase == 7 {
                self.ppu.increment_scroll_x();
            }
        }
    }

    /// The state after the scroll work of one dot: at dot 256 the address
    /// moves one row down; at dot 257 the shifters are loaded and the
    /// horizontal part of the address is taken from the temporary one; at
    /// dots 338 and 340 the tile number is fetched; at dots 280 to 304 of the
    /// pre-render line the vertical part is taken from the temporary one.
    pub open spec fn spec_scroll_events(self) -> Self {
        let c = self.ppu.cycle;
        let s1 = if c == 256 {
            PpuQueryItem { ppu: self.ppu.spec_increment_scroll_y(), ..self }
        } else {
            self
        };
        let s2 = if c == 257 {
            PpuQueryItem {
                ppu: s1.ppu.spec_load_background_shifters().spec_transfer_addr_x(),
                ..s1
            }
        } else {
            s1
        };
        let s3 = if c == 338 || c == 340 {
            s2.spec_fetch_tile_id()
        } else {
            s2
        };
        if s3.ppu.scanline == -1 && 280 <= c < 305 {
            PpuQueryItem { ppu: s3.ppu.spec_transfer_addr_y(), ..s3 }
        } else {
            s3
        }
    }

    pub fn scroll_events(&mut self)
        requires
            old(self).ppu.wf(),
        ensures
            *final(self) == old(self).spec_scroll_events(),
            final(self).ppu.wf(),
    {
        let c: i16 = self.ppu.cycle;
        if c == 256 {
            self.ppu.increment_scroll_y();
        }
        if c == 257 {
            self.ppu.load_background_shifters();
            self.ppu.transfer_addr_x();
        }
        if c == 338 || c == 340 {
            self.fetch_tile_id();
        }
        if self.ppu.scanline == -1 && c >= 280 && c < 305 {
            self.ppu.transfer_addr_y();
        }
    }

    /// A pattern byte of sprite `i` of the line, `plane` being 0 for the
    /// low and 8 for the high byte: read at the sprite's pattern address,
    /// and turned round with the horizontal flip (attribute bit 6).
    pub open spec fn spec_sprite_pattern(self, i: int, plane: int) -> u8 {
        let sprite = self.ppu.scanline_sprites.sprites[i];
        let byte = self.spec_ppu_read((self.ppu.spec_sprite_pattern_addr(sprite) + plane) as u16);
        if sprite.attribute() & 0x40 != 0 {
            reverse_bits(byte)
        } else {
            byte
        }
    }

    /// The state after the sprite work of dot 340: the pattern bytes of
    /// every sprite of the line are in the sprite shifters.
    pub open spec fn spec_fetch_sprites(self) -> Self {
        if self.ppu.cycle == 340 {
            let n = self.ppu.scanline_sprites.length;
            PpuQueryItem {
                ppu: Ppu {
                    sprite_shifter_pattern_lo: array_of(
                        Seq::new(
                            8,
                            |i: int|
                                if i < n {
                                    self.spec_sprite_pattern(i, 0)
                                } else {
                                    self.ppu.sprite_shifter_pattern_lo[i]
                                },
                        ),
                    ),
                    sprite_shifter_pattern_hi: array_of(
                        Seq::new(
                            8,
                            |i: int|
                                if i < n {
                                    self.spec_sprite_pattern(i, 8)
                                } else {
                                    self.ppu.sprite_shifter_pattern_hi[i]
                                },
                        ),
                    ),
                    ..self.ppu
                },
                ..self
            }
        } else {
            self
        }
    }

    pub fn fetch_sprites(&mut self)
        requires
            old(self).ppu.wf(),
        ensures
            *final(self) == old(self).spec_fetch_sprites(),
            final(self).ppu.wf(),
    {
        if self.ppu.cycle == 340 {
            let ghost before = *self;
            let n: usize = self.ppu.scanline_sprites.length as usize;
            let mut lo = self.ppu.sprite_shifter_pattern_lo;
            let mut hi = self.ppu.sprite_shifter_pattern_hi;
            let mut i: usize = 0;
            while i < n
                invariant
                    i <= n <= 8,
                    *self == before,
                    before.ppu.wf(),
                    n == before.ppu.scanline_sprites.length,
                    forall|j: int| 0 <= j < i ==> lo[j] == before.spec_sprite_pattern(j, 0),
                    forall|j: int| 0 <= j < i ==> hi[j] == before.spec_sprite_pattern(j, 8),
                    forall|j: int| i <= j < 8 ==> lo[j] == before.ppu.sprite_shifter_pattern_lo[j],
                    forall|j: int| i <= j < 8 ==> hi[j] == before.ppu.sprite_shifter_pattern_hi[j],
                decreases n - i,
            {
                let sprite = self.ppu.scanline_sprites.sprites[i];
                let addr_lo = self.ppu.sprite_pattern_addr(sprite);
                let addr_hi: u16 = addr_lo + 8;
                let bits_lo = self.ppu_read(addr_lo);
                let bits_hi = self.ppu_read(addr_hi);
                if sprite.attribute() & 0x40 != 0 {
                    lo[i] = reverse_bits(bits_lo);
                    hi[i] = reverse_bits(bits_hi);
                } else {
                    lo[i] = bits_lo;
                    hi[i] = bits_hi;
                }
                i = i + 1;
            }
            self.ppu.sprite_shifter_pattern_lo = lo;
            self.ppu.sprite_shifter_pattern_hi = hi;
            proof {
                assert(lo@ =~= Seq::new(
                    8,
                    |i: int|
                        if i < n {
                            before.spec_sprite_pattern(i, 0)
                        } else {
                            before.ppu.sprite_shifter_pattern_lo[i]
                        },
                ));
                assert(hi@ =~= Seq::new(
                    8,
                    |i: int|
                        if i < n {
                            before.spec_sprite_pattern(i, 8)
                        } else {
                            before.ppu.sprite_shifter_pattern_hi[i]
                        },
                ));
                lemma_array_of(lo);
                lemma_array_of(hi);
            }
        }
    }

    /// The state after the work of one dot on the pre-render line and the
    /// visible lines (scanlines -1 to 239); on other lines nothing is done.
    #[verifier::opaque]
    pub open spec fn spec_render_line(self) -> Self {
        if -1 <= self.ppu.scanline < 240 {
            let s1 = PpuQueryItem { ppu: self.ppu.spec_skip_idle_dot().spec_clear_flags(), ..self };
            let s2 = s1.spec_fetch_background().spec_scroll_events();
            let s3 = if s2.ppu.cycle == 257 && s2.ppu.scanline >= 0 {
                PpuQueryItem { ppu: s2.ppu.spec_evaluate_sprites(), ..s2 }
            } else {
                s2
            };
            s3.spec_fetch_sprites()
        } else {
            self
        }
    }

    pub fn render_line(&mut self)
        requires
            old(self).ppu.wf(),
        ensures
            *final(self) == old(self).spec_render_line(),
            final(self).ppu.wf(),
    {
        proof {
            reveal(PpuQueryItem::spec_render_line);
        }
        if self.ppu.scanline >= -1 && self.ppu.scanline < 240 {
            self.ppu.skip_idle_dot();
            self.ppu.clear_flags();
            self.fetch_background();
            self.scroll_events();
            if self.ppu.cycle == 257 && self.ppu.scanline >= 0 {
                self.ppu.evaluate_sprites();
            }
            self.fetch_sprites();
        }
    }

    /// The palette address of a pixel: four colours to a palette, from
    /// 0x3F00 on.
    pub open spec fn spec_color_addr(palette: u8, pixel: u8) -> u16 {
        (0x3F00 + palette * 4 + pixel) as u16
    }

    /// The state with the colour of the current dot on the screen: the
    /// composed pixel, looked up in palette RAM, at column `dot - 1` of row
    /// `scanline`, where that place is on the screen.
    #[verifier::opaque]
    pub open spec fn spec_output(self) -> Self {
        let (pixel, palette) = self.ppu.spec_compose();
        let color = self.spec_ppu_read(Self::spec_color_addr(palette, pixel));
        PpuQueryItem {
            ppu: self.ppu.spec_set_pixel(self.ppu.cycle - 1, self.ppu.scanline as int, color),
            ..self
        }
    }

    pub fn get_color_from_ram(&self, palette: u8, pixel: u8) -> (r: u8)
        requires
            palette < 8,
            pixel < 4,
        ensures
            r == self.spec_ppu_read(Self::spec_color_addr(palette, pixel)),
    {
        let addr: u16 = 0x3F00 + (palette as u16) * 4 + (pixel as u16);
        self.ppu_read(addr)
    }

    pub fn output(&mut self)
        requires
            old(self).ppu.wf(),
        ensures
            *final(self) == old(self).spec_output(),
            final(self).ppu.wf(),
    {
        proof {
            reveal(PpuQueryItem::spec_output);
        }
        let bg = self.ppu.background_pixel();
        let fg = self.ppu.foreground_pixel();
        let (pixel, palette): (u8, u8) = if bg.0 == 0 && fg.0 == 0 {
            (0, 0)
        } else if bg.0 == 0 {
            (fg.0, fg.1)
        } else if fg.0 == 0 {
            (bg.0, bg.1)
        } else if fg.2 {
            (fg.0, fg.1)
        } else {
            (bg.0, bg.1)
        };
        let color = self.get_color_from_ram(palette, pixel);
        self.ppu.set_pixel(self.ppu.cycle - 1, self.ppu.scanline, color);
    }

    /// The state one dot later: the line's work, the start of vertical
    /// blank, the pixel of the dot, and the move to the next dot.
    #[verifier::opaque]
    pub open spec fn spec_tick(self) -> Self {
        let s1 = self.spec_render_line();
        let s2 = PpuQueryItem { ppu: s1.ppu.spec_vblank(), ..s1 };
        let s3 = s2.spec_output();
        PpuQueryItem { ppu: s3.ppu.spec_advance(), ..s3 }
    }

    /// Advances the unit by one dot.
    pub fn tick(&mut self)
        requires
            old(self).ppu.wf(),
        ensures
            *final(self) == old(self).spec_tick(),
            final(self).ppu.wf(),
    {
        proof {
            reveal(PpuQueryItem::spec_tick);
        }
        self.render_line();
        self.ppu.vblank();
        self.output();
        self.ppu.advance();
    }
}

/// A field that was just set reads back as the value modulo the field's
/// width, and setting one field leaves the fields below and above it as
/// they were.
pub proof fn lemma_loopy_set_get(r: LoopyRegister, value: u16)
    ensures
        r.with_coarse_x(value).coarse_x() == value % 32,
        r.with_coarse_y(value).coarse_y() == value % 32,
        r.with_nametable_x(value).nametable_x() == value % 2,
        r.with_nametable_y(value).nametable_y() == value % 2,
        r.with_fine_y(value).fine_y() == value % 8,
        r.with_coarse_x(value).0 / 32 == r.0 / 32,
        r.with_coarse_y(value).0 % 32 == r.0 % 32,
        r.with_coarse_y(value).0 / 0x400 == r.0 / 0x400,
        r.with_nametable_x(value).0 % 0x400 == r.0 % 0x400,
        r.with_nametable_x(value).0 / 0x800 == r.0 / 0x800,
        r.with_nametable_y(value).0 % 0x800 == r.0 % 0x800,
        r.with_nametable_y(value).0 / 0x1000 == r.0 / 0x1000,
        r.with_fine_y(value).0 % 0x1000 == r.0 % 0x1000,
        r.with_fine_y(value).0 / 0x8000 == r.0 / 0x8000,
{
    let x = r.0;
    crate::bits::lemma_field_swap(x as int, 1, 32, value as int);
    crate::bits::lemma_field_swap(x as int, 32, 32, value as int);
    crate::bits::lemma_field_swap(x as int, 0x400, 2, value as int);
    crate::bits::lemma_field_swap(x as int, 0x800, 2, value as int);
    crate::bits::lemma_field_swap(x as int, 0x1000, 8, value as int);
}

} // verus!
