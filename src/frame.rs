use vstd::prelude::*;
use crate::palette::{palette_color, system_color};
use crate::ppu_registers::PpuControl;
use crate::ppu_state::{PpuModel, PpuState, ppu_wf};
use crate::rom::{Mirroring, ROM};

verus! {

pub const WIDTH: usize = 256;
pub const HEIGHT: usize = 240;

/// A finished picture: 256 x 240 RGB triples in scanline order, top-left first.
pub struct Frame {
    pub data: Vec<(u8, u8, u8)>,
}

/// A rectangle of nametable pixels, `x1..x2` by `y1..y2`.
pub struct Viewport {
    pub x1: usize,
    pub y1: usize,
    pub x2: usize,
    pub y2: usize,
}

impl Viewport {
    pub fn new(x1: usize, y1: usize, x2: usize, y2: usize) -> (r: Viewport)
        ensures
            r == (Viewport { x1, y1, x2, y2 }),
    {
        Viewport { x1, y1, x2, y2 }
    }
}

/// The 2-bit colour index of pixel `(x, y)` of the 8x8 tile whose 16 bytes start at
/// `base` in `chr`: bit 0 from the first plane, bit 1 from the second.
pub open spec fn tile_pixel(chr: Seq<u8>, base: int, x: int, y: int) -> u8 {
    let shift = (7 - x) as u8;
    (((chr[base + y] >> shift) & 1) + 2 * ((chr[base + 8 + y] >> shift) & 1)) as u8
}

/// The palette select of background tile `(tile_x, tile_y)` from its attribute byte.
pub open spec fn attribute_select(attribute: u8, tile_x: int, tile_y: int) -> u8 {
    let shift = (2 * ((tile_x % 4) / 2) + 4 * ((tile_y % 4) / 2)) as u8;
    (attribute >> shift) & 3
}

/// The four palette entries of background palette `select`; entry 0 is the backdrop.
pub open spec fn background_palette_spec(palette: Seq<u8>, select: u8) -> Seq<u8> {
    seq![palette[0], palette[4 * select + 1], palette[4 * select + 2], palette[4 * select + 3]]
}

/// The palette of background tile `i` of the nametable at VRAM offset `table`.
pub open spec fn tile_palette(p: PpuModel, table: int, i: int) -> Seq<u8> {
    let tile_x = i % 32;
    let tile_y = i / 32;
    background_palette_spec(
        p.palette,
        attribute_select(p.vram[table + 0x3C0 + 8 * (tile_y / 4) + tile_x / 4], tile_x, tile_y),
    )
}

/// Painting columns `0..n` of row `y` of background tile `i`: pixels inside the view
/// `x1..x2` by `y1..y2` (in nametable coordinates) land moved by `(sx, sy)`.
pub open spec fn tile_row(
    f: Seq<(u8, u8, u8)>,
    p: PpuModel,
    chr: Seq<u8>,
    bank: int,
    table: int,
    view: (int, int, int, int),
    sx: int,
    sy: int,
    i: int,
    y: int,
    n: int,
) -> Seq<(u8, u8, u8)>
    decreases n,
{
    if n <= 0 {
        f
    } else {
        let f1 = tile_row(f, p, chr, bank, table, view, sx, sy, i, y, n - 1);
        let x = n - 1;
        let px = 8 * (i % 32) + x;
        let py = 8 * (i / 32) + y;
        let (x1, y1, x2, y2) = view;
        if x1 <= px < x2 && y1 <= py < y2 {
            let index = tile_pixel(chr, bank + 16 * p.vram[table + i], x, y);
            paint(f1, sx + px, sy + py, palette_color(tile_palette(p, table, i)[index as int] % 64))
        } else {
            f1
        }
    }
}

/// Painting rows `0..m` of background tile `i`.
pub open spec fn tile_rows(
    f: Seq<(u8, u8, u8)>,
    p: PpuModel,
    chr: Seq<u8>,
    bank: int,
    table: int,
    view: (int, int, int, int),
    sx: int,
    sy: int,
    i: int,
    m: int,
) -> Seq<(u8, u8, u8)>
    decreases m,
{
    if m <= 0 {
        f
    } else {
        tile_row(tile_rows(f, p, chr, bank, table, view, sx, sy, i, m - 1), p, chr, bank, table, view, sx, sy, i, m - 1, 8)
    }
}

/// Painting tiles `0..k` of the nametable at VRAM offset `table`.
pub open spec fn name_table_spec(
    f: Seq<(u8, u8, u8)>,
    p: PpuModel,
    chr: Seq<u8>,
    bank: int,
    table: int,
    view: (int, int, int, int),
    sx: int,
    sy: int,
    k: int,
) -> Seq<(u8, u8, u8)>
    decreases k,
{
    if k <= 0 {
        f
    } else {
        tile_rows(name_table_spec(f, p, chr, bank, table, view, sx, sy, k - 1), p, chr, bank, table, view, sx, sy, k - 1, 8)
    }
}

/// The background pattern bank that control value `ctrl` selects.
pub open spec fn background_bank(ctrl: u8) -> int {
    if ctrl & PpuControl::BACKGROUND_PATTERN_ADDR != 0 { 0x1000 } else { 0 }
}

/// Whether the nametable that PPUCTRL selects is stored in the lower physical table.
pub open spec fn primary_is_low(mirroring: Mirroring, ctrl: u8) -> bool {
    let t = ctrl % 4;
    if mirroring == Mirroring::Vertical { t == 0 || t == 2 } else { t == 0 || t == 1 }
}

/// The background: the selected nametable shifted by `(-scroll_x, -scroll_y)`, then its
/// neighbour in the strip of width `scroll_x` that the scroll reveals on the right.
pub open spec fn background_spec(f: Seq<(u8, u8, u8)>, p: PpuModel, rom: ROM) -> Seq<(u8, u8, u8)> {
    let first: int = if primary_is_low(rom.mirroring, p.ctrl) { 0 } else { 0x400 };
    let second: int = if primary_is_low(rom.mirroring, p.ctrl) { 0x400 } else { 0 };
    let scroll_x = p.scroll.cam_position_x as int;
    let scroll_y = p.scroll.cam_position_y as int;
    let bank = background_bank(p.ctrl);
    let f1 = name_table_spec(f, p, rom.chr_rom@, bank, first, (scroll_x, scroll_y, WIDTH as int, HEIGHT as int), -scroll_x, -scroll_y, 0x3C0);
    name_table_spec(f1, p, rom.chr_rom@, bank, second, (0, 0, scroll_x, HEIGHT as int), 256 - scroll_x, 0, 0x3C0)
}

/// The four palette entries of sprite palette `select`; entry 0 is transparent.
pub open spec fn sprite_palette_spec(palette: Seq<u8>, select: u8) -> Seq<u8> {
    seq![0u8, palette[0x11 + 4 * select], palette[0x12 + 4 * select], palette[0x13 + 4 * select]]
}

/// The pixels of an all-black frame.
pub open spec fn black_frame() -> Seq<(u8, u8, u8)> {
    Seq::new((WIDTH * HEIGHT) as nat, |i: int| (0u8, 0u8, 0u8))
}

/// The frame that rendering PPU state `p` with cartridge `rom` produces.
pub open spec fn rendered_frame(p: PpuModel, rom: ROM) -> Seq<(u8, u8, u8)> {
    sprites_spec(
        background_spec(black_frame(), p, rom),
        p,
        rom.chr_rom@,
        if p.ctrl & PpuControl::SPRITE_PATTERN_ADDR != 0 { 0x1000int } else { 0 },
        64,
    )
}

/// Frame pixels `f` with pixel `(x, y)` coloured `c` when it lies inside the frame.
pub open spec fn paint(f: Seq<(u8, u8, u8)>, x: int, y: int, c: (u8, u8, u8)) -> Seq<(u8, u8, u8)> {
    if 0 <= x < WIDTH && 0 <= y < HEIGHT { f.update(WIDTH * y + x, c) } else { f }
}

/// Start of the 16 pattern bytes of sprite `s` in pattern bank `bank`.
pub open spec fn sprite_base(p: PpuModel, bank: int, s: int) -> int {
    bank + 16 * p.oam[4 * s + 1]
}

/// Painting columns `0..n` of row `y` of sprite `s`; colour index 0 is transparent and
/// the attribute's flip bits mirror the tile.
pub open spec fn sprite_row(f: Seq<(u8, u8, u8)>, p: PpuModel, chr: Seq<u8>, bank: int, s: int, y: int, n: int) -> Seq<(u8, u8, u8)>
    decreases n,
{
    if n <= 0 {
        f
    } else {
        let f1 = sprite_row(f, p, chr, bank, s, y, n - 1);
        let x = n - 1;
        let attr = p.oam[4 * s + 2];
        let index = tile_pixel(chr, sprite_base(p, bank, s), x, y);
        if index == 0 {
            f1
        } else {
            let px = if attr & 0x40 != 0 { p.oam[4 * s + 3] + 7 - x } else { p.oam[4 * s + 3] + x };
            let py = if attr & 0x80 != 0 { p.oam[4 * s] + 7 - y } else { p.oam[4 * s] + y };
            paint(f1, px, py, palette_color(sprite_palette_spec(p.palette, attr & 3)[index as int] % 64))
        }
    }
}

/// Painting rows `0..m` of sprite `s`.
pub open spec fn sprite_rows(f: Seq<(u8, u8, u8)>, p: PpuModel, chr: Seq<u8>, bank: int, s: int, m: int) -> Seq<(u8, u8, u8)>
    decreases m,
{
    if m <= 0 { f } else { sprite_row(sprite_rows(f, p, chr, bank, s, m - 1), p, chr, bank, s, m - 1, 8) }
}

/// Painting sprite `s`, unless its priority bit puts it behind the background.
pub open spec fn sprite_paint(f: Seq<(u8, u8, u8)>, p: PpuModel, chr: Seq<u8>, bank: int, s: int) -> Seq<(u8, u8, u8)> {
    if p.oam[4 * s + 2] & 0x20 != 0 { f } else { sprite_rows(f, p, chr, bank, s, 8) }
}

/// Painting the first `k` sprites in back-to-front order: sprite 63 first, sprite 0 last.
pub open spec fn sprites_spec(f: Seq<(u8, u8, u8)>, p: PpuModel, chr: Seq<u8>, bank: int, k: int) -> Seq<(u8, u8, u8)>
    decreases k,
{
    if k <= 0 { f } else { sprite_paint(sprites_spec(f, p, chr, bank, k - 1), p, chr, bank, 64 - k) }
}

/// The colour index of column `x` of a tile row with plane bytes `upper` and `lower`.
fn pixel_index(upper: u8, lower: u8, x: usize) -> (r: u8)
    requires
        x < 8,
    ensures
        r <= 3,
        r == ((upper >> ((7 - x) as u8)) & 1) + 2 * ((lower >> ((7 - x) as u8)) & 1),
{
    let shift = (7 - x) as u8;
    let a = (upper >> shift) & 1;
    let b = (lower >> shift) & 1;
    assert(a <= 1 && b <= 1) by (bit_vector)
        requires
            a == (upper >> shift) & 1,
            b == (lower >> shift) & 1;
    a + 2 * b
}

impl Frame {
    pub open spec fn wf(&self) -> bool {
        self.data@.len() == WIDTH * HEIGHT
    }

    /// A black frame.
    pub fn new() -> (r: Frame)
        ensures
            r.wf(),
            r.data@ == black_frame(),
    {
        let mut data: Vec<(u8, u8, u8)> = Vec::with_capacity(WIDTH * HEIGHT);
        let mut i: usize = 0;
        while i < WIDTH * HEIGHT
            invariant
                i <= WIDTH * HEIGHT,
                data@.len() == i,
                forall|j: int| 0 <= j < i ==> data@[j] == (0u8, 0u8, 0u8),
            decreases WIDTH * HEIGHT - i,
        {
            data.push((0, 0, 0));
            i = i + 1;
        }
        assert(data@ =~= black_frame());
        Frame { data }
    }

    /// Colours pixel `(x, y)`; positions outside the frame are ignored.
    pub fn set_pixel(&mut self, x: usize, y: usize, color: (u8, u8, u8))
        requires
            old(self).wf(),
        ensures
            final(self).wf(),
            x < WIDTH && y < HEIGHT ==> final(self).data@ == old(self).data@.update(WIDTH * y + x, color),
            !(x < WIDTH && y < HEIGHT) ==> final(self).data@ == old(self).data@,
    {
        if x < WIDTH && y < HEIGHT {
            self.data.set(WIDTH * y + x, color);
        }
    }

    /// The frame as RGB24 bytes, three per pixel.
    pub fn to_rgb_bytes(&self) -> (r: Vec<u8>)
        requires
            self.wf(),
        ensures
            r@.len() == 3 * WIDTH * HEIGHT,
            forall|i: int| 0 <= i < WIDTH * HEIGHT ==> r@[3 * i] == self.data@[i].0 && r@[3 * i + 1]
                == self.data@[i].1 && r@[3 * i + 2] == self.data@[i].2,
    {
        let mut out: Vec<u8> = Vec::with_capacity(3 * WIDTH * HEIGHT);
        let mut i: usize = 0;
        while i < WIDTH * HEIGHT
            invariant
                self.wf(),
                i <= WIDTH * HEIGHT,
                out@.len() == 3 * i,
                forall|j: int| 0 <= j < i ==> out@[3 * j] == self.data@[j].0 && out@[3 * j + 1]
                    == self.data@[j].1 && out@[3 * j + 2] == self.data@[j].2,
            decreases WIDTH * HEIGHT - i,
        {
            let (r, g, b) = self.data[i];
            out.push(r);
            out.push(g);
            out.push(b);
            i = i + 1;
        }
        out
    }

    /// Renders the background, then the sprites in front of it.
    pub fn render(&mut self, ppu: &PpuState, rom: &ROM)
        requires
            old(self).wf(),
            ppu.wf(),
            rom.wf(),
        ensures
            final(self).wf(),
            final(self).data@ == sprites_spec(
                background_spec(old(self).data@, ppu@, *rom),
                ppu@,
                rom.chr_rom@,
                if ppu@.ctrl & PpuControl::SPRITE_PATTERN_ADDR != 0 { 0x1000int } else { 0 },
                64,
            ),
    {
        self.render_background(ppu, rom);
        self.render_sprites(ppu, rom);
    }

    /// Paints the selected nametable shifted by the scroll, and its neighbour into the
    /// strip that the horizontal scroll reveals.
    fn render_background(&mut self, ppu: &PpuState, rom: &ROM)
        requires
            old(self).wf(),
            ppu.wf(),
            rom.wf(),
        ensures
            final(self).wf(),
            final(self).data@ == background_spec(old(self).data@, ppu@, *rom),
    {
        let (scroll_x, scroll_y) = ppu.ppuscroll.read();
        let table = ppu.ppuctrl.bits % 4;
        let first_is_low = match rom.mirroring {
            Mirroring::Vertical => table == 0 || table == 2,
            _ => table == 0 || table == 1,
        };
        assert(first_is_low == primary_is_low(rom.mirroring, ppu@.ctrl));
        let (first, second): (usize, usize) = if first_is_low { (0, 0x400) } else { (0x400, 0) };
        let first_view = Viewport::new(scroll_x as usize, scroll_y as usize, WIDTH, HEIGHT);
        self.render_name_table(ppu, rom, first, first_view, -(scroll_x as i32), -(scroll_y as i32));
        let second_view = Viewport::new(0, 0, scroll_x as usize, HEIGHT);
        self.render_name_table(ppu, rom, second, second_view, 256 - scroll_x as i32, 0);
    }

    /// Paints the pixels of the nametable at VRAM offset `table` that lie in `view`,
    /// moved by `(shift_x, shift_y)`.
    fn render_name_table(
        &mut self,
        ppu: &PpuState,
        rom: &ROM,
        table: usize,
        view: Viewport,
        shift_x: i32,
        shift_y: i32,
    )
        requires
            old(self).wf(),
            ppu.wf(),
            rom.wf(),
            table == 0 || table == 0x400,
            -256 <= shift_x <= 256,
            -256 <= shift_y <= 256,
        ensures
            final(self).wf(),
            final(self).data@ == name_table_spec(
                old(self).data@,
                ppu@,
                rom.chr_rom@,
                background_bank(ppu@.ctrl),
                table as int,
                (view.x1 as int, view.y1 as int, view.x2 as int, view.y2 as int),
                shift_x as int,
                shift_y as int,
                0x3C0,
            ),
    {
        let bank = ppu.ppuctrl.get_background_pattern_addr() as usize;
        let ghost f0 = self.data@;
        let ghost p = ppu@;
        let ghost chr = rom.chr_rom@;
        let ghost v = (view.x1 as int, view.y1 as int, view.x2 as int, view.y2 as int);
        let mut i: usize = 0;
        while i < 0x3C0
            invariant
                self.wf(),
                ppu.wf(),
                rom.wf(),
                p == ppu@,
                chr == rom.chr_rom@,
                v == (view.x1 as int, view.y1 as int, view.x2 as int, view.y2 as int),
                table == 0 || table == 0x400,
                bank == background_bank(p.ctrl),
                bank == 0 || bank == 0x1000,
                -256 <= shift_x <= 256,
                -256 <= shift_y <= 256,
                i <= 0x3C0,
                self.data@ == name_table_spec(f0, p, chr, bank as int, table as int, v, shift_x as int, shift_y as int, i as int),
            decreases 0x3C0 - i,
        {
            let tile_n = ppu.ram[table + i] as usize;
            let base = bank + 16 * tile_n;
            let tile_x = i % 32;
            let tile_y = i / 32;
            let palette = Self::background_palette(ppu, table, tile_x, tile_y);
            let ghost ft = self.data@;
            let mut y: usize = 0;
            while y < 8
                invariant
                    self.wf(),
                    rom.wf(),
                    p == ppu@,
                    chr == rom.chr_rom@,
                    v == (view.x1 as int, view.y1 as int, view.x2 as int, view.y2 as int),
                    base + 16 <= 0x2000,
                    base == bank + 16 * p.vram[table + i],
                    i < 0x3C0,
                    tile_x == i % 32 && tile_y == i / 32,
                    palette@ == tile_palette(p, table as int, i as int),
                    -256 <= shift_x <= 256,
                    -256 <= shift_y <= 256,
                    y <= 8,
                    self.data@ == tile_rows(ft, p, chr, bank as int, table as int, v, shift_x as int, shift_y as int, i as int, y as int),
                decreases 8 - y,
            {
                let upper = rom.chr_rom[base + y];
                let lower = rom.chr_rom[base + 8 + y];
                let ghost fr = self.data@;
                let mut x: usize = 0;
                while x < 8
                    invariant
                        self.wf(),
                        p == ppu@,
                        chr == rom.chr_rom@,
                        v == (view.x1 as int, view.y1 as int, view.x2 as int, view.y2 as int),
                        base + 16 <= 0x2000,
                        base == bank + 16 * p.vram[table + i],
                        i < 0x3C0,
                        tile_x == i % 32 && tile_y == i / 32,
                        palette@ == tile_palette(p, table as int, i as int),
                        upper == chr[base + y],
                        lower == chr[base + 8 + y],
                        -256 <= shift_x <= 256,
                        -256 <= shift_y <= 256,
                        y < 8,
                        x <= 8,
                        self.data@ == tile_row(fr, p, chr, bank as int, table as int, v, shift_x as int, shift_y as int, i as int, y as int, x as int),
                    decreases 8 - x,
                {
                    let index = pixel_index(upper, lower, x);
                    let rgb = system_color(palette[index as usize]);
                    let pixel_x = 8 * tile_x + x;
                    let pixel_y = 8 * tile_y + y;
                    if pixel_x >= view.x1 && pixel_x < view.x2 && pixel_y >= view.y1 && pixel_y < view.y2 {
                        let sx = shift_x + pixel_x as i32;
                        let sy = shift_y + pixel_y as i32;
                        if sx >= 0 && sy >= 0 {
                            self.set_pixel(sx as usize, sy as usize, rgb);
                        }
                    }
                    x = x + 1;
                }
                y = y + 1;
            }
            i = i + 1;
        }
    }

    /// Paints the sprites that are in front of the background, back to front by
    /// descending OAM index; colour index 0 is transparent.
    fn render_sprites(&mut self, ppu: &PpuState, rom: &ROM)
        requires
            old(self).wf(),
            ppu.wf(),
            rom.wf(),
        ensures
            final(self).wf(),
            final(self).data@ == sprites_spec(
                old(self).data@,
                ppu@,
                rom.chr_rom@,
                if ppu@.ctrl & PpuControl::SPRITE_PATTERN_ADDR != 0 { 0x1000int } else { 0 },
                64,
            ),
    {
        let bank = ppu.ppuctrl.get_sprite_pattern_addr() as usize;
        let ghost f0 = self.data@;
        let ghost p = ppu@;
        let ghost chr = rom.chr_rom@;
        let mut n: usize = 64;
        while n > 0
            invariant
                self.wf(),
                ppu.wf(),
                rom.wf(),
                p == ppu@,
                chr == rom.chr_rom@,
                bank == 0 || bank == 0x1000,
                n <= 64,
                self.data@ == sprites_spec(f0, p, chr, bank as int, 64 - n),
            decreases n,
        {
            n = n - 1;
            let i = 4 * n;
            let tile_y = ppu.oam_data[i] as usize;
            let tile_n = ppu.oam_data[i + 1] as usize;
            let attributes = ppu.oam_data[i + 2];
            let tile_x = ppu.oam_data[i + 3] as usize;
            let flip_vertical = attributes & 0x80 != 0;
            let flip_horizontal = attributes & 0x40 != 0;
            let behind = attributes & 0x20 != 0;
            let select = attributes & 3;
            assert(select <= 3) by (bit_vector)
                requires
                    select == attributes & 3;
            let palette = Self::sprite_palette(ppu, select);
            let ghost fs = self.data@;
            if !behind {
                let base = bank + 16 * tile_n;
                let mut y: usize = 0;
                while y < 8
                    invariant
                        self.wf(),
                        rom.wf(),
                        chr == rom.chr_rom@,
                        base + 16 <= 0x2000,
                        base == sprite_base(p, bank as int, n as int),
                        n < 64,
                        p.oam.len() == 256,
                        tile_x == p.oam[4 * n + 3],
                        tile_y == p.oam[4 * n],
                        attributes == p.oam[4 * n + 2],
                        flip_horizontal == (attributes & 0x40 != 0),
                        flip_vertical == (attributes & 0x80 != 0),
                        palette@ == sprite_palette_spec(p.palette, attributes & 3),
                        tile_x < 256 && tile_y < 256,
                        y <= 8,
                        self.data@ == sprite_rows(fs, p, chr, bank as int, n as int, y as int),
                    decreases 8 - y,
                {
                    let upper = rom.chr_rom[base + y];
                    let lower = rom.chr_rom[base + 8 + y];
                    let ghost fr = self.data@;
                    let mut x: usize = 0;
                    while x < 8
                        invariant
                            self.wf(),
                            chr == rom.chr_rom@,
                            base + 16 <= 0x2000,
                            base == sprite_base(p, bank as int, n as int),
                            n < 64,
                            p.oam.len() == 256,
                            tile_x == p.oam[4 * n + 3],
                            tile_y == p.oam[4 * n],
                            attributes == p.oam[4 * n + 2],
                            flip_horizontal == (attributes & 0x40 != 0),
                            flip_vertical == (attributes & 0x80 != 0),
                            palette@ == sprite_palette_spec(p.palette, attributes & 3),
                            upper == chr[base + y],
                            lower == chr[base + 8 + y],
                            tile_x < 256 && tile_y < 256,
                            y < 8,
                            x <= 8,
                            self.data@ == sprite_row(fr, p, chr, bank as int, n as int, y as int, x as int),
                        decreases 8 - x,
                    {
                        let index = pixel_index(upper, lower, x);
                        if index != 0 {
                            let rgb = system_color(palette[index as usize]);
                            let px = if flip_horizontal { tile_x + 7 - x } else { tile_x + x };
                            let py = if flip_vertical { tile_y + 7 - y } else { tile_y + y };
                            self.set_pixel(px, py, rgb);
                        }
                        x = x + 1;
                    }
                    y = y + 1;
                }
            }
        }
    }

    /// The palette of background tile `(tile_x, tile_y)` of the nametable at VRAM offset
    /// `table`, chosen by its quadrant of the attribute byte.
    fn background_palette(ppu: &PpuState, table: usize, tile_x: usize, tile_y: usize) -> (r: [u8; 4])
        requires
            ppu.wf(),
            table == 0 || table == 0x400,
            tile_x < 32,
            tile_y < 30,
        ensures
            r@ == background_palette_spec(
                ppu@.palette,
                attribute_select(ppu@.vram[table + 0x3C0 + 8 * (tile_y / 4) + tile_x / 4], tile_x as int, tile_y as int),
            ),
    {
        let attribute = ppu.ram[table + 0x3C0 + 8 * (tile_y / 4) + tile_x / 4];
        let shift = (2 * ((tile_x % 4) / 2) + 4 * ((tile_y % 4) / 2)) as u8;
        let select = (attribute >> shift) & 3;
        assert(select <= 3) by (bit_vector)
            requires
                select == (attribute >> shift) & 3;
        let offset = 4 * select as usize;
        [ppu.palette_table[0], ppu.palette_table[offset + 1], ppu.palette_table[offset + 2], ppu.palette_table[offset + 3]]
    }

    /// The palette of sprite palette `select` (0 to 3).
    fn sprite_palette(ppu: &PpuState, select: u8) -> (r: [u8; 4])
        requires
            ppu.wf(),
            select <= 3,
        ensures
            r@ == sprite_palette_spec(ppu@.palette, select),
    {
        let start = 0x11 + 4 * select as usize;
        [0, ppu.palette_table[start], ppu.palette_table[start + 1], ppu.palette_table[start + 2]]
    }
}

} // verus!
