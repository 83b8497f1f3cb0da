use vstd::prelude::*;
use crate::ppu_registers::{
    OamAddr, PpuAddr, PpuControl, PpuMask, PpuScroll, PpuStatus, addr_incremented, addr_value, in_vblank,
    nmi_enabled, sprites_shown, vram_increment, with_flag,
};
use crate::rom::{Mirroring, ROM};

verus! {

/// Dots per scanline.
pub const DOTS_PER_SCANLINE: u16 = 341;

/// Scanlines per frame, including the non-visible ones.
pub const SCANLINES_PER_FRAME: u16 = 262;

/// The scanline at whose start vblank begins.
pub const VBLANK_SCANLINE: u16 = 241;

/// Bytes of nametable memory.
pub const VRAM_SIZE: usize = 0x800;

/// Bytes of palette memory.
pub const PALETTE_SIZE: usize = 32;

/// Bytes of object attribute memory.
pub const OAM_SIZE: usize = 256;

/// Registers, memories, frame clock and NMI latch of the picture processing unit.
pub struct PpuState {
    /// The two physical 1 KiB nametables.
    pub ram: Vec<u8>,
    pub palette_table: Vec<u8>,
    pub oam_data: Vec<u8>,
    pub ppuctrl: PpuControl,
    pub ppumask: PpuMask,
    pub ppustatus: PpuStatus,
    pub oamaddr: OamAddr,
    pub ppuscroll: PpuScroll,
    pub ppuaddr: PpuAddr,
    /// The PPUDATA read buffer.
    pub ppudata: u8,
    /// A pending non-maskable interrupt.
    pub nmi_interrupt_poll: bool,
    /// Dot within the current scanline.
    pub cycle_counter: u16,
    pub cur_scanline: u16,
}

/// The mathematical value of a `PpuState`.
pub struct PpuModel {
    pub vram: Seq<u8>,
    pub palette: Seq<u8>,
    pub oam: Seq<u8>,
    pub ctrl: u8,
    pub mask: u8,
    pub status: u8,
    pub oam_addr: u8,
    pub scroll: PpuScroll,
    pub addr: PpuAddr,
    pub buffer: u8,
    pub nmi: bool,
    pub dot: u16,
    pub scanline: u16,
}

impl View for PpuState {
    type V = PpuModel;

    open spec fn view(&self) -> PpuModel {
        PpuModel {
            vram: self.ram@,
            palette: self.palette_table@,
            oam: self.oam_data@,
            ctrl: self.ppuctrl.bits,
            mask: self.ppumask.bits,
            status: self.ppustatus.bits,
            oam_addr: self.oamaddr.data,
            scroll: self.ppuscroll,
            addr: self.ppuaddr,
            buffer: self.ppudata,
            nmi: self.nmi_interrupt_poll,
            dot: self.cycle_counter,
            scanline: self.cur_scanline,
        }
    }
}

/// Well-formedness of a PPU model: memory sizes, a 14-bit address latch, counters in range.
pub open spec fn ppu_wf(m: PpuModel) -> bool {
    &&& m.vram.len() == VRAM_SIZE
    &&& m.palette.len() == PALETTE_SIZE
    &&& m.oam.len() == OAM_SIZE
    &&& m.addr.wf()
    &&& m.dot < DOTS_PER_SCANLINE
    &&& m.scanline < SCANLINES_PER_FRAME
}

/// The physical nametable (0 or 1) that logical nametable `table` maps to.
pub open spec fn mirror_table(mirroring: Mirroring, table: int) -> int {
    if mirroring == Mirroring::Horizontal { table / 2 } else { table % 2 }
}

/// The VRAM index that PPU address `addr` in `0x2000..=0x3EFF` reaches.
pub open spec fn vram_index(mirroring: Mirroring, addr: u16) -> int {
    let offset = (addr - 0x2000) % 0x1000;
    mirror_table(mirroring, offset / 0x400) * 0x400 + offset % 0x400
}

/// The palette index that PPU address `addr` in `0x3F00..=0x3FFF` reaches; the
/// backdrop mirrors `0x10/0x14/0x18/0x1C` fold onto `0x00/0x04/0x08/0x0C`.
pub open spec fn palette_index(addr: u16) -> int {
    let p = addr % 32;
    if p == 0x10 || p == 0x14 || p == 0x18 || p == 0x1C { p - 0x10 } else { p as int }
}

/// The byte that the PPU sees at address `addr` (below `0x4000`).
pub open spec fn ppu_byte(m: PpuModel, rom: ROM, addr: u16) -> u8 {
    if addr < 0x2000 {
        rom.chr_rom@[addr as int]
    } else if addr < 0x3F00 {
        m.vram[vram_index(rom.mirroring, addr)]
    } else {
        m.palette[palette_index(addr)]
    }
}

/// The model after the CPU writes `v` at PPU address `addr`; pattern tables are read-only.
pub open spec fn ppu_store(m: PpuModel, rom: ROM, addr: u16, v: u8) -> PpuModel {
    if addr < 0x2000 {
        m
    } else if addr < 0x3F00 {
        PpuModel { vram: m.vram.update(vram_index(rom.mirroring, addr), v), ..m }
    } else {
        PpuModel { palette: m.palette.update(palette_index(addr), v), ..m }
    }
}

/// The VRAM address latch moved on by the PPUCTRL increment.
pub open spec fn next_addr(m: PpuModel) -> PpuAddr {
    addr_incremented(m.addr, vram_increment(m.ctrl))
}

/// The model after a PPUSTATUS read.
pub open spec fn status_read_spec(m: PpuModel) -> PpuModel {
    PpuModel {
        status: with_flag(m.status, PpuStatus::VBLANK_STARTED, false),
        scroll: PpuScroll { is_set_position_x: true, ..m.scroll },
        addr: PpuAddr { is_set_msb: true, ..m.addr },
        ..m
    }
}

/// The model after a PPUCTRL write of `data`.
pub open spec fn ctrl_write_spec(m: PpuModel, data: u8) -> PpuModel {
    PpuModel {
        ctrl: data,
        nmi: m.nmi || (!nmi_enabled(m.ctrl) && nmi_enabled(data) && in_vblank(m.status)),
        ..m
    }
}

/// The model after an OAMDATA write of `data`.
pub open spec fn oamdata_write_spec(m: PpuModel, data: u8) -> PpuModel {
    PpuModel { oam: m.oam.update(m.oam_addr as int, data), oam_addr: m.oam_addr.wrapping_add(1), ..m }
}

/// The model after an OAM DMA of the 256 bytes `data`.
pub open spec fn oamdma_spec(m: PpuModel, data: Seq<u8>) -> PpuModel {
    PpuModel { oam: Seq::new(OAM_SIZE as nat, |i: int| data[(i - m.oam_addr + 256) % 256]), ..m }
}

/// The model after a PPUSCROLL write of `data`.
pub open spec fn scroll_write_spec(m: PpuModel, data: u8) -> PpuModel {
    let s = m.scroll;
    PpuModel {
        scroll: if s.is_set_position_x {
            PpuScroll { cam_position_x: data, is_set_position_x: false, ..s }
        } else {
            PpuScroll { cam_position_y: data, is_set_position_x: true, ..s }
        },
        ..m
    }
}

/// The model after a PPUADDR write of `data`.
pub open spec fn addr_write_spec(m: PpuModel, data: u8) -> PpuModel {
    let a = m.addr;
    PpuModel {
        addr: if a.is_set_msb {
            PpuAddr { hi: data % 0x40, is_set_msb: false, ..a }
        } else {
            PpuAddr { lo: data, is_set_msb: true, ..a }
        },
        ..m
    }
}

/// The model after a PPUDATA read.
pub open spec fn data_read_spec(m: PpuModel, rom: ROM) -> PpuModel {
    PpuModel { buffer: ppudata_buffer(m, rom), addr: next_addr(m), ..m }
}

/// The model after a PPUDATA write of `data`.
pub open spec fn data_write_spec(m: PpuModel, rom: ROM, data: u8) -> PpuModel {
    PpuModel { addr: next_addr(m), ..ppu_store(m, rom, addr_value(m.addr), data) }
}

/// What a PPUDATA read returns: palette bytes at once, other bytes one read late.
pub open spec fn ppudata_value(m: PpuModel, rom: ROM) -> u8 {
    let addr = addr_value(m.addr);
    if addr >= 0x3F00 { ppu_byte(m, rom, addr) } else { m.buffer }
}

/// The buffer after a PPUDATA read.
pub open spec fn ppudata_buffer(m: PpuModel, rom: ROM) -> u8 {
    let addr = addr_value(m.addr);
    if addr >= 0x3F00 { m.buffer } else { ppu_byte(m, rom, addr) }
}

/// Position of the model within a frame, in dots.
pub open spec fn frame_position(m: PpuModel) -> int {
    m.scanline as int * DOTS_PER_SCANLINE + m.dot
}

/// Dots per frame.
pub open spec fn frame_dots() -> int {
    SCANLINES_PER_FRAME as int * DOTS_PER_SCANLINE as int
}

/// Whether sprite zero is hit on the model's current scanline by its current dot.
pub open spec fn sprite_zero_hit(m: PpuModel, dot: int) -> bool {
    m.oam[0] as int == m.scanline as int && m.oam[3] as int <= dot && sprites_shown(m.mask)
}

/// The start of vblank: the vblank flag set, sprite-zero hit cleared, and an NMI latched
/// when NMI-enable is set.
pub open spec fn vblank_start(m: PpuModel) -> PpuModel {
    PpuModel {
        status: with_flag(with_flag(m.status, PpuStatus::VBLANK_STARTED, true), PpuStatus::SPRITE_ZERO_HIT, false),
        nmi: m.nmi || nmi_enabled(m.ctrl),
        ..m
    }
}

/// One scanline wrap of a model whose dot count `dot` has reached the end of the line;
/// vblank starts on entering scanline 241 when the remaining dots reach its dot 1.
pub open spec fn scanline_step(m: PpuModel, dot: int) -> PpuModel {
    let hit_status = if sprite_zero_hit(m, dot) {
        with_flag(m.status, PpuStatus::SPRITE_ZERO_HIT, true)
    } else {
        m.status
    };
    let next = (m.scanline + 1) as u16;
    if next == VBLANK_SCANLINE {
        let m1 = PpuModel { status: hit_status, scanline: next, ..m };
        if dot - DOTS_PER_SCANLINE >= 1 { vblank_start(m1) } else { m1 }
    } else if next >= SCANLINES_PER_FRAME {
        let s1 = with_flag(with_flag(hit_status, PpuStatus::VBLANK_STARTED, false), PpuStatus::SPRITE_ZERO_HIT, false);
        PpuModel { status: s1, scanline: 0, nmi: false, ..m }
    } else {
        PpuModel { status: hit_status, scanline: next, ..m }
    }
}

/// A vblank that was reached at dot 0 of scanline 241 starts once the clock moves on.
pub open spec fn pending_vblank(m: PpuModel, dots: int) -> PpuModel {
    if m.scanline == VBLANK_SCANLINE && m.dot == 0 && dots >= 1 { vblank_start(m) } else { m }
}

/// The model after its clock advances by `dots` dots.
pub open spec fn ppu_advance(m: PpuModel, dots: int) -> PpuModel {
    advance_spec(pending_vblank(m, dots), m.dot + dots)
}

/// Whether advancing the clock by `dots` dots completes a frame.
pub open spec fn ppu_wraps(m: PpuModel, dots: int) -> bool {
    advance_wraps(pending_vblank(m, dots), m.dot + dots)
}

/// The model after advancing by `dots` dots from dot count `dot` (which may exceed a line).
pub open spec fn advance_spec(m: PpuModel, dot: int) -> PpuModel
    decreases dot,
{
    if dot < DOTS_PER_SCANLINE {
        PpuModel { dot: dot as u16, ..m }
    } else {
        advance_spec(scanline_step(m, dot), dot - DOTS_PER_SCANLINE)
    }
}

/// Whether advancing from dot count `dot` wraps the frame.
pub open spec fn advance_wraps(m: PpuModel, dot: int) -> bool
    decreases dot,
{
    if dot < DOTS_PER_SCANLINE {
        false
    } else if m.scanline + 1 >= SCANLINES_PER_FRAME {
        true
    } else {
        advance_wraps(scanline_step(m, dot), dot - DOTS_PER_SCANLINE)
    }
}

impl PpuState {
    pub open spec fn wf(&self) -> bool {
        ppu_wf(self@)
    }

    pub fn new() -> (r: PpuState)
        ensures
            r.wf(),
            r@.ctrl == 0 && r@.mask == 0 && r@.status == 0 && r@.oam_addr == 0,
            r@.buffer == 0 && !r@.nmi && r@.dot == 0 && r@.scanline == 0,
            r@.addr == PpuAddr::new_spec(),
            r@.scroll == (PpuScroll { cam_position_x: 0, cam_position_y: 0, is_set_position_x: true }),
            r@.vram == Seq::new(VRAM_SIZE as nat, |i: int| 0u8),
            r@.palette == Seq::new(PALETTE_SIZE as nat, |i: int| 0u8),
            r@.oam == Seq::new(OAM_SIZE as nat, |i: int| 0u8),
    {
        let r = PpuState {
            ram: vec![0u8; VRAM_SIZE],
            palette_table: vec![0u8; PALETTE_SIZE],
            oam_data: vec![0u8; OAM_SIZE],
            ppuctrl: PpuControl { bits: 0 },
            ppumask: PpuMask { bits: 0 },
            ppustatus: PpuStatus { bits: 0 },
            oamaddr: OamAddr::new(),
            ppuscroll: PpuScroll::new(),
            ppuaddr: PpuAddr::new(),
            ppudata: 0,
            nmi_interrupt_poll: false,
            cycle_counter: 0,
            cur_scanline: 0,
        };
        assert(r@.vram =~= Seq::new(VRAM_SIZE as nat, |i: int| 0u8));
        assert(r@.palette =~= Seq::new(PALETTE_SIZE as nat, |i: int| 0u8));
        assert(r@.oam =~= Seq::new(OAM_SIZE as nat, |i: int| 0u8));
        r
    }
}

/// The VRAM index for a nametable address in `0x2000..=0x3EFF` under `mirroring`.
pub fn mirror_vram_addr(mirroring: Mirroring, addr: u16) -> (r: usize)
    requires
        0x2000 <= addr < 0x3F00,
        mirroring != Mirroring::FourScreen,
    ensures
        r == vram_index(mirroring, addr),
        r < VRAM_SIZE,
{
    let offset: u16 = (addr - 0x2000) % 0x1000;
    let table: u16 = offset / 0x400;
    let physical: u16 = match mirroring {
        Mirroring::Horizontal => table / 2,
        _ => table % 2,
    };
    (physical * 0x400 + offset % 0x400) as usize
}

/// The palette index for a palette address in `0x3F00..=0x3FFF`.
pub fn mirror_palette_addr(addr: u16) -> (r: usize)
    ensures
        r == palette_index(addr),
        r < PALETTE_SIZE,
{
    let p = addr % 32;
    if p == 0x10 || p == 0x14 || p == 0x18 || p == 0x1C {
        (p - 0x10) as usize
    } else {
        p as usize
    }
}

impl PpuState {
    /// Reads the PPU address space: pattern tables, nametables, palette.
    pub fn read_vram(&self, rom: &ROM, addr: u16) -> (r: u8)
        requires
            self.wf(),
            rom.wf(),
            addr < 0x4000,
        ensures
            r == ppu_byte(self@, *rom, addr),
    {
        if addr < 0x2000 {
            rom.read_chr(addr)
        } else if addr < 0x3F00 {
            self.ram[mirror_vram_addr(rom.mirroring, addr)]
        } else {
            self.palette_table[mirror_palette_addr(addr)]
        }
    }

    /// Writes the PPU address space; writes to the pattern tables are ignored.
    pub fn write_vram(&mut self, rom: &ROM, addr: u16, value: u8)
        requires
            old(self).wf(),
            rom.wf(),
            addr < 0x4000,
        ensures
            final(self).wf(),
            final(self)@ == ppu_store(old(self)@, *rom, addr, value),
    {
        if addr < 0x2000 {
        } else if addr < 0x3F00 {
            let i = mirror_vram_addr(rom.mirroring, addr);
            self.ram.set(i, value);
        } else {
            let i = mirror_palette_addr(addr);
            self.palette_table.set(i, value);
        }
    }

    /// PPUCTRL write: stores the value; an NMI is latched when NMI-enable goes from 0 to
    /// 1 during vblank.
    pub fn write_ppuctrl(&mut self, data: u8)
        requires
            old(self).wf(),
        ensures
            final(self).wf(),
            final(self)@ == ctrl_write_spec(old(self)@, data),
    {
        let prev_is_generate_nmi = self.ppuctrl.is_generate_nmi();
        self.ppuctrl.write(data);
        let is_vblank_started = self.ppustatus.is_vblank_started();
        let cur_is_generate_nmi = self.ppuctrl.is_generate_nmi();
        if !prev_is_generate_nmi && cur_is_generate_nmi && is_vblank_started {
            self.nmi_interrupt_poll = true;
        }
    }

    /// PPUMASK write.
    pub fn write_ppumask(&mut self, data: u8)
        requires
            old(self).wf(),
        ensures
            final(self).wf(),
            final(self)@ == (PpuModel { mask: data, ..old(self)@ }),
    {
        self.ppumask.write(data);
    }

    /// PPUSTATUS read: returns the status, clears vblank and resets both write latches.
    pub fn read_ppustatus(&mut self) -> (r: u8)
        requires
            old(self).wf(),
        ensures
            final(self).wf(),
            r == old(self)@.status,
            final(self)@ == status_read_spec(old(self)@),
    {
        let bits = self.ppustatus.bits();
        self.ppustatus.set_vblank_started(false);
        self.ppuscroll.reset();
        self.ppuaddr.reset();
        bits
    }

    /// OAMADDR write.
    pub fn write_oamaddr(&mut self, data: u8)
        requires
            old(self).wf(),
        ensures
            final(self).wf(),
            final(self)@ == (PpuModel { oam_addr: data, ..old(self)@ }),
    {
        self.oamaddr.write(data);
    }

    /// OAMDATA write: stores at OAMADDR, then increments OAMADDR.
    pub fn write_oamdata(&mut self, data: u8)
        requires
            old(self).wf(),
        ensures
            final(self).wf(),
            final(self)@ == oamdata_write_spec(old(self)@, data),
    {
        let a = self.oamaddr.read() as usize;
        self.oam_data.set(a, data);
        self.oamaddr.increment();
    }

    /// OAMDMA: copies 256 bytes into OAM starting at OAMADDR, wrapping around; OAMADDR
    /// ends where it started.
    pub fn write_oamdma(&mut self, data: &Vec<u8>)
        requires
            old(self).wf(),
            data@.len() == OAM_SIZE,
        ensures
            final(self).wf(),
            final(self)@ == oamdma_spec(old(self)@, data@),
    {
        let ghost start = self.oamaddr.data as int;
        let ghost m0 = self@;
        let mut k: usize = 0;
        while k < OAM_SIZE
            invariant
                k <= OAM_SIZE,
                data@.len() == OAM_SIZE,
                self.wf(),
                self.oamaddr.data as int == (start + k) % 256,
                self@ == (PpuModel { oam: self@.oam, oam_addr: self@.oam_addr, ..m0 }),
                forall|i: int| 0 <= i < OAM_SIZE ==> #[trigger] self@.oam[i] == if (i - start + 256) % 256 < k {
                    data@[(i - start + 256) % 256]
                } else {
                    m0.oam[i]
                },
            decreases OAM_SIZE - k,
        {
            let a = self.oamaddr.read() as usize;
            self.oam_data.set(a, data[k]);
            self.oamaddr.increment();
            k = k + 1;
        }
        assert(self@.oam =~= Seq::new(OAM_SIZE as nat, |i: int| data@[(i - start + 256) % 256]));
    }

    /// OAMDATA read: the byte at OAMADDR, without incrementing.
    pub fn read_oamdata(&self) -> (r: u8)
        requires
            self.wf(),
        ensures
            r == self@.oam[self@.oam_addr as int],
    {
        self.oam_data[self.oamaddr.read() as usize]
    }

    /// PPUSCROLL write.
    pub fn write_ppuscroll(&mut self, data: u8)
        requires
            old(self).wf(),
        ensures
            final(self).wf(),
            final(self)@ == scroll_write_spec(old(self)@, data),
    {
        self.ppuscroll.write(data);
    }

    /// PPUADDR write.
    pub fn write_ppuaddr(&mut self, data: u8)
        requires
            old(self).wf(),
        ensures
            final(self).wf(),
            final(self)@ == addr_write_spec(old(self)@, data),
    {
        self.ppuaddr.write(data);
    }

    /// PPUDATA read: palette bytes come at once, other bytes through the one-byte
    /// buffer; the address then moves on by the PPUCTRL increment.
    pub fn read_ppudata(&mut self, rom: &ROM) -> (r: u8)
        requires
            old(self).wf(),
            rom.wf(),
        ensures
            final(self).wf(),
            r == ppudata_value(old(self)@, *rom),
            final(self)@ == data_read_spec(old(self)@, *rom),
    {
        let addr = self.ppuaddr.read();
        let result;
        if addr >= 0x3F00 {
            result = self.read_vram(rom, addr);
        } else {
            result = self.ppudata;
            self.ppudata = self.read_vram(rom, addr);
        }
        let inc_value = self.ppuctrl.get_vram_addr_inc_value();
        self.ppuaddr.increment(inc_value);
        result
    }

    /// PPUDATA write: stores at the VRAM address, then moves it on by the increment.
    pub fn write_ppudata(&mut self, rom: &ROM, data: u8)
        requires
            old(self).wf(),
            rom.wf(),
        ensures
            final(self).wf(),
            final(self)@ == data_write_spec(old(self)@, *rom, data),
    {
        let addr = self.ppuaddr.read();
        self.write_vram(rom, addr, data);
        let inc_value = self.ppuctrl.get_vram_addr_inc_value();
        self.ppuaddr.increment(inc_value);
    }

    /// Sets the vblank flag, clears sprite-zero hit and latches an NMI if enabled.
    fn start_vblank(&mut self)
        requires
            old(self).wf(),
        ensures
            final(self).wf(),
            final(self)@ == vblank_start(old(self)@),
    {
        self.ppustatus.set_vblank_started(true);
        self.ppustatus.set_sprite_zero_hit(false);
        if self.ppuctrl.is_generate_nmi() {
            self.nmi_interrupt_poll = true;
        }
    }

    /// Whether sprite zero is hit on the current scanline by dot count `dot`.
    fn is_sprite_zero_hit(&self, dot: u32) -> (r: bool)
        requires
            self.wf(),
        ensures
            r == sprite_zero_hit(self@, dot as int),
    {
        let y = self.oam_data[0] as u16;
        let x = self.oam_data[3] as u32;
        y == self.cur_scanline && x <= dot && self.ppumask.is_show_sprites()
    }

    /// Advances the frame clock by `dots` dots, handling every scanline wrap: sprite-zero
    /// hit, vblank (with its NMI) at the start of scanline 241, and the frame wrap after
    /// scanline 261. Returns whether a frame was completed.
    pub fn increment_cycle_counter(&mut self, dots: u16) -> (r: bool)
        requires
            old(self).wf(),
        ensures
            final(self).wf(),
            final(self)@ == ppu_advance(old(self)@, dots as int),
            r == ppu_wraps(old(self)@, dots as int),
    {
        if self.cur_scanline == VBLANK_SCANLINE && self.cycle_counter == 0 && dots >= 1 {
            self.start_vblank();
        }
        let ghost m0 = self@;
        let mut dot: u32 = self.cycle_counter as u32 + dots as u32;
        let mut wrapped = false;
        while dot >= DOTS_PER_SCANLINE as u32
            invariant
                self.wf(),
                dot <= 0x10000 + 341,
                self@.dot == m0.dot,
                advance_spec(self@, dot as int) == advance_spec(m0, m0.dot + dots),
                !wrapped ==> advance_wraps(self@, dot as int) == advance_wraps(m0, m0.dot + dots),
                wrapped ==> advance_wraps(m0, m0.dot + dots),
            decreases dot,
        {
            let ghost before = self@;
            let ghost dot_before = dot as int;
            if self.is_sprite_zero_hit(dot) {
                self.ppustatus.set_sprite_zero_hit(true);
            }
            dot = dot - DOTS_PER_SCANLINE as u32;
            self.cur_scanline = self.cur_scanline + 1;
            if self.cur_scanline == VBLANK_SCANLINE {
                if dot >= 1 {
                    self.start_vblank();
                }
            } else if self.cur_scanline >= SCANLINES_PER_FRAME {
                self.cur_scanline = 0;
                self.nmi_interrupt_poll = false;
                self.ppustatus.set_vblank_started(false);
                self.ppustatus.set_sprite_zero_hit(false);
                wrapped = true;
            }
            assert(self@ == scanline_step(before, dot_before));
        }
        self.cycle_counter = dot as u16;
        wrapped
    }
}

impl PpuAddr {
    pub open spec fn new_spec() -> PpuAddr {
        PpuAddr { hi: 0, lo: 0, is_set_msb: true }
    }
}


proof fn lemma_advance_position(m: PpuModel, d: int)
    requires
        m.scanline < SCANLINES_PER_FRAME,
        d >= 0,
    ensures
        frame_position(advance_spec(m, d)) == (m.scanline as int * DOTS_PER_SCANLINE + d) % frame_dots(),
        advance_wraps(m, d) == (m.scanline as int * DOTS_PER_SCANLINE + d >= frame_dots()),
        advance_spec(m, d).scanline < SCANLINES_PER_FRAME,
        advance_spec(m, d).dot < DOTS_PER_SCANLINE,
    decreases d,
{
    if d >= DOTS_PER_SCANLINE {
        lemma_advance_position(scanline_step(m, d), d - DOTS_PER_SCANLINE);
        let x = m.scanline as int * DOTS_PER_SCANLINE + d;
        let f = frame_dots();
        if m.scanline + 1 >= SCANLINES_PER_FRAME {
            assert((x - f) % f == x % f) by (nonlinear_arith)
                requires
                    f == 89342,
                    x >= f;
        }
    } else {
        let x = m.scanline as int * DOTS_PER_SCANLINE + d;
        assert(x % frame_dots() == x) by (nonlinear_arith)
            requires
                0 <= x < 89342;
    }
}

/// The PPU clock: advancing a well-formed PPU by `d` dots (less than a frame) moves its
/// position within the frame by exactly `d` modulo the 262 x 341 dots of a frame, and a
/// frame is completed exactly when the position passes the end of the frame.
pub proof fn lemma_dot_clock(m: PpuModel, d: int)
    requires
        ppu_wf(m),
        0 <= d < frame_dots(),
    ensures
        ppu_wf(ppu_advance(m, d)),
        frame_position(ppu_advance(m, d)) == (frame_position(m) + d) % frame_dots(),
        ppu_wraps(m, d) == (frame_position(m) + d >= frame_dots()),
{
    let p = pending_vblank(m, d);
    lemma_advance_position(p, m.dot + d);
    lemma_advance_keeps_memories(p, m.dot + d);
}

/// The clock law for any advance: the position moves by `d` modulo a frame, and a frame
/// is completed when the position passes its end.
pub proof fn lemma_clock_any(m: PpuModel, d: int)
    requires
        m.scanline < SCANLINES_PER_FRAME,
        m.dot < DOTS_PER_SCANLINE,
        d >= 0,
    ensures
        frame_position(ppu_advance(m, d)) == (frame_position(m) + d) % frame_dots(),
        ppu_wraps(m, d) == (frame_position(m) + d >= frame_dots()),
        ppu_advance(m, d).scanline < SCANLINES_PER_FRAME,
        ppu_advance(m, d).dot < DOTS_PER_SCANLINE,
{
    lemma_advance_position(pending_vblank(m, d), m.dot + d);
}

/// Advancing by `d1` dots and then by `d2` dots moves the position as advancing by
/// `d1 + d2` dots does: the clock counts every dot of a sequence of steps.
pub proof fn lemma_dot_clock_sequence(m: PpuModel, d1: int, d2: int)
    requires
        m.scanline < SCANLINES_PER_FRAME,
        m.dot < DOTS_PER_SCANLINE,
        d1 >= 0,
        d2 >= 0,
    ensures
        frame_position(ppu_advance(ppu_advance(m, d1), d2)) == (frame_position(m) + d1 + d2) % frame_dots(),
{
    lemma_clock_any(m, d1);
    lemma_clock_any(ppu_advance(m, d1), d2);
    let p = frame_position(m);
    let f = frame_dots();
    vstd::arithmetic::div_mod::lemma_add_mod_noop(p + d1, d2, f);
}

proof fn lemma_advance_keeps_memories(m: PpuModel, d: int)
    requires
        ppu_wf(m),
    ensures
        advance_spec(m, d).vram == m.vram,
        advance_spec(m, d).palette == m.palette,
        advance_spec(m, d).oam == m.oam,
        advance_spec(m, d).addr == m.addr,
    decreases d,
{
    if d >= DOTS_PER_SCANLINE {
        lemma_advance_keeps_memories(scanline_step(m, d), d - DOTS_PER_SCANLINE);
    }
}

/// Two consecutive PPUDATA reads from a nametable address `v` return the previously
/// buffered byte first, then the byte at `v` (when the incremented address is still
/// below the palette).
pub proof fn lemma_ppudata_buffered_read(m: PpuModel, rom: ROM)
    requires
        ppu_wf(m),
        0x2000 <= addr_value(m.addr) < 0x3F00,
        addr_value(next_addr(m)) < 0x3F00,
    ensures
        ppudata_value(m, rom) == m.buffer,
        ppudata_value(data_read_spec(m, rom), rom) == ppu_byte(m, rom, addr_value(m.addr)),
{
}

/// Reaching dot 1 of scanline 241 sets vblank and, when NMI-enable is set, latches a
/// pending NMI: on entering the scanline with at least one dot to go, or when the clock
/// moves on from its dot 0.
pub proof fn lemma_vblank_nmi(m: PpuModel, dot: int, dots: int)
    ensures
        m.scanline == VBLANK_SCANLINE - 1 && dot >= DOTS_PER_SCANLINE + 1 ==> {
            &&& in_vblank(scanline_step(m, dot).status)
            &&& (nmi_enabled(m.ctrl) ==> scanline_step(m, dot).nmi)
            &&& scanline_step(m, dot).scanline == VBLANK_SCANLINE
        },
        m.scanline == VBLANK_SCANLINE && m.dot == 0 && dots >= 1 ==> {
            &&& in_vblank(pending_vblank(m, dots).status)
            &&& (nmi_enabled(m.ctrl) ==> pending_vblank(m, dots).nmi)
        },
{
    let s = m.status;
    let h = with_flag(s, PpuStatus::SPRITE_ZERO_HIT, true);
    assert(with_flag(with_flag(s, 0x80, true), 0x40, false) & 0x80 != 0) by (bit_vector);
    assert(with_flag(with_flag(h, 0x80, true), 0x40, false) & 0x80 != 0) by (bit_vector);
}

} // verus!
