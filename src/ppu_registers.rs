use vstd::prelude::*;

verus! {

/// PPUCTRL: nametable select, VRAM increment, pattern banks, sprite size, NMI enable.
#[derive(Debug, Clone, Copy, PartialEq, Eq, Structural)]
pub struct PpuControl {
    pub bits: u8,
}

impl PpuControl {
    pub const NAMETABLE_0: u8 = 0b0000_0001;
    pub const NAMETABLE_1: u8 = 0b0000_0010;
    pub const VRAM_ADDR_INC: u8 = 0b0000_0100;
    pub const SPRITE_PATTERN_ADDR: u8 = 0b0000_1000;
    pub const BACKGROUND_PATTERN_ADDR: u8 = 0b0001_0000;
    pub const SPRITE_SIZE: u8 = 0b0010_0000;
    pub const MASTER_SLAVE_SELECT: u8 = 0b0100_0000;
    pub const GENERATE_NMI: u8 = 0b1000_0000;

    pub fn from_bits_retain(bits: u8) -> (r: PpuControl)
        ensures
            r.bits == bits,
    {
        PpuControl { bits }
    }

    pub fn bits(&self) -> (r: u8)
        ensures
            r == self.bits,
    {
        self.bits
    }

    /// Base address of the selected nametable.
    pub fn get_name_table_addr(&self) -> (r: u16)
        ensures
            r == 0x2000 + 0x400 * (self.bits % 4),
    {
        0x2000 + 0x400 * (self.bits % 4) as u16
    }

    /// How far PPUDATA accesses move the VRAM address: 1 or 32.
    pub fn get_vram_addr_inc_value(&self) -> (r: u8)
        ensures
            r == vram_increment(self.bits),
    {
        if self.bits & Self::VRAM_ADDR_INC != 0 { 32 } else { 1 }
    }

    /// Pattern table base of 8x8 sprites.
    pub fn get_sprite_pattern_addr(&self) -> (r: u16)
        ensures
            r == if self.bits & Self::SPRITE_PATTERN_ADDR != 0 { 0x1000u16 } else { 0u16 },
    {
        if self.bits & Self::SPRITE_PATTERN_ADDR != 0 { 0x1000 } else { 0 }
    }

    /// Pattern table base of background tiles.
    pub fn get_background_pattern_addr(&self) -> (r: u16)
        ensures
            r == if self.bits & Self::BACKGROUND_PATTERN_ADDR != 0 { 0x1000u16 } else { 0u16 },
    {
        if self.bits & Self::BACKGROUND_PATTERN_ADDR != 0 { 0x1000 } else { 0 }
    }

    /// Sprite width and height: 8x8 or 8x16.
    pub fn get_sprite_size(&self) -> (r: (u8, u8))
        ensures
            r == if self.bits & Self::SPRITE_SIZE != 0 { (8u8, 16u8) } else { (8u8, 8u8) },
    {
        if self.bits & Self::SPRITE_SIZE != 0 { (8, 16) } else { (8, 8) }
    }

    pub fn is_master_slave_select(&self) -> (r: bool)
        ensures
            r == (self.bits & Self::MASTER_SLAVE_SELECT != 0),
    {
        self.bits & Self::MASTER_SLAVE_SELECT != 0
    }

    /// Whether an NMI is raised when vblank starts.
    pub fn is_generate_nmi(&self) -> (r: bool)
        ensures
            r == nmi_enabled(self.bits),
    {
        self.bits & Self::GENERATE_NMI != 0
    }

    pub fn write(&mut self, data: u8)
        ensures
            final(self).bits == data,
    {
        self.bits = data;
    }
}

/// The VRAM address increment that control value `ctrl` selects.
pub open spec fn vram_increment(ctrl: u8) -> u8 {
    if ctrl & PpuControl::VRAM_ADDR_INC != 0 { 32 } else { 1 }
}

/// Whether control value `ctrl` enables NMI on vblank.
pub open spec fn nmi_enabled(ctrl: u8) -> bool {
    ctrl & PpuControl::GENERATE_NMI != 0
}

/// PPUMASK: greyscale, left-column enables, background and sprite enables, emphasis.
#[derive(Debug, Clone, Copy, PartialEq, Eq, Structural)]
pub struct PpuMask {
    pub bits: u8,
}

impl PpuMask {
    pub const GREYSCALE: u8 = 0b0000_0001;
    pub const BACKGROUND_LEFTMOST: u8 = 0b0000_0010;
    pub const SPRITES_LEFTMOST: u8 = 0b0000_0100;
    pub const SHOW_BACKGROUND: u8 = 0b0000_1000;
    pub const SHOW_SPRITES: u8 = 0b0001_0000;
    pub const EMPHASIZE_RED: u8 = 0b0010_0000;
    pub const EMPHASIZE_GREEN: u8 = 0b0100_0000;
    pub const EMPHASIZE_BLUE: u8 = 0b1000_0000;

    pub fn write(&mut self, data: u8)
        ensures
            final(self).bits == data,
    {
        self.bits = data;
    }

    pub fn is_show_background_leftmost(&self) -> (r: bool)
        ensures
            r == (self.bits & Self::BACKGROUND_LEFTMOST != 0),
    {
        self.bits & Self::BACKGROUND_LEFTMOST != 0
    }

    pub fn is_show_sprites_leftmost(&self) -> (r: bool)
        ensures
            r == (self.bits & Self::SPRITES_LEFTMOST != 0),
    {
        self.bits & Self::SPRITES_LEFTMOST != 0
    }

    pub fn is_show_background(&self) -> (r: bool)
        ensures
            r == (self.bits & Self::SHOW_BACKGROUND != 0),
    {
        self.bits & Self::SHOW_BACKGROUND != 0
    }

    pub fn is_show_sprites(&self) -> (r: bool)
        ensures
            r == sprites_shown(self.bits),
    {
        self.bits & Self::SHOW_SPRITES != 0
    }
}

/// Whether mask value `mask` enables sprite rendering.
pub open spec fn sprites_shown(mask: u8) -> bool {
    mask & PpuMask::SHOW_SPRITES != 0
}

/// PPUSTATUS: sprite overflow, sprite-zero hit and vblank.
#[derive(Debug, Clone, Copy, PartialEq, Eq, Structural)]
pub struct PpuStatus {
    pub bits: u8,
}

/// `bits` with the flags of `mask` switched on or off.
pub open spec fn with_flag(bits: u8, mask: u8, on: bool) -> u8 {
    if on {
        bits | mask
    } else {
        bits & !mask
    }
}

impl PpuStatus {
    pub const SPRITE_OVERFLOW: u8 = 0b0010_0000;
    pub const SPRITE_ZERO_HIT: u8 = 0b0100_0000;
    pub const VBLANK_STARTED: u8 = 0b1000_0000;

    pub fn bits(&self) -> (r: u8)
        ensures
            r == self.bits,
    {
        self.bits
    }

    pub fn set_sprite_overflow(&mut self, status: bool)
        ensures
            final(self).bits == with_flag(old(self).bits, Self::SPRITE_OVERFLOW, status),
    {
        self.bits = if status { self.bits | Self::SPRITE_OVERFLOW } else { self.bits & !Self::SPRITE_OVERFLOW };
    }

    pub fn set_sprite_zero_hit(&mut self, status: bool)
        ensures
            final(self).bits == with_flag(old(self).bits, Self::SPRITE_ZERO_HIT, status),
    {
        self.bits = if status { self.bits | Self::SPRITE_ZERO_HIT } else { self.bits & !Self::SPRITE_ZERO_HIT };
    }

    pub fn set_vblank_started(&mut self, status: bool)
        ensures
            final(self).bits == with_flag(old(self).bits, Self::VBLANK_STARTED, status),
    {
        self.bits = if status { self.bits | Self::VBLANK_STARTED } else { self.bits & !Self::VBLANK_STARTED };
    }

    pub fn is_vblank_started(&self) -> (r: bool)
        ensures
            r == in_vblank(self.bits),
    {
        self.bits & Self::VBLANK_STARTED != 0
    }
}

/// Whether status value `status` has the vblank flag.
pub open spec fn in_vblank(status: u8) -> bool {
    status & PpuStatus::VBLANK_STARTED != 0
}

/// OAMADDR: the OAM byte that OAMDATA accesses.
#[derive(Debug, Clone, Copy, PartialEq, Eq, Structural)]
pub struct OamAddr {
    pub data: u8,
}

impl OamAddr {
    pub fn new() -> (r: OamAddr)
        ensures
            r.data == 0,
    {
        OamAddr { data: 0 }
    }

    pub fn read(&self) -> (r: u8)
        ensures
            r == self.data,
    {
        self.data
    }

    pub fn write(&mut self, data: u8)
        ensures
            final(self).data == data,
    {
        self.data = data;
    }

    /// Moves to the next OAM byte, wrapping after 255.
    pub fn increment(&mut self)
        ensures
            final(self).data == old(self).data.wrapping_add(1),
    {
        self.data = self.data.wrapping_add(1);
    }
}

/// PPUSCROLL: the two-write X-then-Y scroll latch.
#[derive(Debug, Clone, Copy, PartialEq, Eq, Structural)]
pub struct PpuScroll {
    pub cam_position_x: u8,
    pub cam_position_y: u8,
    /// Whether the next write sets X (else Y).
    pub is_set_position_x: bool,
}

impl PpuScroll {
    pub fn new() -> (r: PpuScroll)
        ensures
            r == (PpuScroll { cam_position_x: 0, cam_position_y: 0, is_set_position_x: true }),
    {
        PpuScroll { cam_position_x: 0, cam_position_y: 0, is_set_position_x: true }
    }

    /// First write sets X, second sets Y; each write toggles which comes next.
    pub fn write(&mut self, byte: u8)
        ensures
            *final(self) == if old(self).is_set_position_x {
                PpuScroll { cam_position_x: byte, is_set_position_x: false, ..*old(self) }
            } else {
                PpuScroll { cam_position_y: byte, is_set_position_x: true, ..*old(self) }
            },
    {
        if self.is_set_position_x {
            self.cam_position_x = byte;
        } else {
            self.cam_position_y = byte;
        }
        self.is_set_position_x = !self.is_set_position_x;
    }

    /// The scroll offsets `(x, y)`.
    pub fn read(&self) -> (r: (u8, u8))
        ensures
            r == (self.cam_position_x, self.cam_position_y),
    {
        (self.cam_position_x, self.cam_position_y)
    }

    /// The next write sets X again.
    pub fn reset(&mut self)
        ensures
            *final(self) == (PpuScroll { is_set_position_x: true, ..*old(self) }),
    {
        self.is_set_position_x = true;
    }
}

/// PPUADDR: the two-write VRAM address latch, high byte (6 bits) first.
#[derive(Debug, Clone, Copy, PartialEq, Eq, Structural)]
pub struct PpuAddr {
    pub hi: u8,
    pub lo: u8,
    /// Whether the next write sets the high byte.
    pub is_set_msb: bool,
}

/// The 14-bit address the latch holds.
pub open spec fn addr_value(a: PpuAddr) -> u16 {
    (a.hi as int * 256 + a.lo as int) as u16
}

/// The latch with its address moved on by `inc`, within the 14-bit address space.
pub open spec fn addr_incremented(a: PpuAddr, inc: u8) -> PpuAddr {
    let v = addr_value(a) as int + inc as int;
    PpuAddr { hi: ((v / 256) % 0x40) as u8, lo: (v % 256) as u8, ..a }
}

impl PpuAddr {
    pub open spec fn wf(&self) -> bool {
        self.hi < 0x40
    }

    pub fn new() -> (r: PpuAddr)
        ensures
            r.wf(),
            r == (PpuAddr { hi: 0, lo: 0, is_set_msb: true }),
    {
        PpuAddr { hi: 0, lo: 0, is_set_msb: true }
    }

    /// First write sets the high byte with its two upper bits masked off, second sets
    /// the low byte; each write toggles which comes next.
    pub fn write(&mut self, byte: u8)
        requires
            old(self).wf(),
        ensures
            final(self).wf(),
            *final(self) == if old(self).is_set_msb {
                PpuAddr { hi: byte % 0x40, is_set_msb: false, ..*old(self) }
            } else {
                PpuAddr { lo: byte, is_set_msb: true, ..*old(self) }
            },
    {
        if self.is_set_msb {
            self.hi = byte % 0x40;
        } else {
            self.lo = byte;
        }
        self.is_set_msb = !self.is_set_msb;
    }

    pub fn read(&self) -> (r: u16)
        requires
            self.wf(),
        ensures
            r == addr_value(*self),
            r < 0x4000,
    {
        self.hi as u16 * 256 + self.lo as u16
    }

    /// Adds `inc` to the address, wrapping within the 14-bit address space.
    pub fn increment(&mut self, inc: u8)
        requires
            old(self).wf(),
        ensures
            final(self).wf(),
            *final(self) == addr_incremented(*old(self), inc),
            addr_value(*final(self)) == (addr_value(*old(self)) + inc) % 0x4000,
    {
        let result: u16 = self.read() + inc as u16;
        self.hi = ((result / 256) % 0x40) as u8;
        self.lo = (result % 256) as u8;
    }

    /// The next write sets the high byte again.
    pub fn reset(&mut self)
        requires
            old(self).wf(),
        ensures
            final(self).wf(),
            *final(self) == (PpuAddr { is_set_msb: true, ..*old(self) }),
    {
        self.is_set_msb = true;
    }
}

} // verus!
