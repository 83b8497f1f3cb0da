use vstd::prelude::*;
use crate::error::NesError;

verus! {

/// Size of one program-ROM page.
pub const PRG_ROM_PAGE_SIZE: usize = 0x4000;

/// Size of one character-ROM page.
pub const CHR_ROM_PAGE_SIZE: usize = 0x2000;

/// Size of the cartridge image header.
pub const HEADER_SIZE: usize = 16;

/// Size of the optional trainer block between the header and program ROM.
pub const TRAINER_SIZE: usize = 512;

/// How the four logical nametables map onto the two physical ones.
#[derive(Debug, Clone, Copy, PartialEq, Eq, Structural)]
pub enum Mirroring {
    Vertical,
    Horizontal,
    FourScreen,
}

/// A mapper-0 cartridge: program ROM, character ROM, mirroring and mapper id.
pub struct ROM {
    pub mirroring: Mirroring,
    pub mapper: u8,
    pub prg_rom: Vec<u8>,
    pub chr_rom: Vec<u8>,
}

/// Whether the image starts with the bytes `N`, `E`, `S`, `0x1A`.
pub open spec fn magic_ok(s: Seq<u8>) -> bool {
    s.len() >= HEADER_SIZE && s[0] == 0x4E && s[1] == 0x45 && s[2] == 0x53 && s[3] == 0x1A
}

/// Whether flags 7 announce the extended header format.
pub open spec fn extended_format(s: Seq<u8>) -> bool {
    (s[7] >> 2u8) & 0x03 != 0
}

/// Whether flags 6 ask for four-screen mirroring.
pub open spec fn four_screen(s: Seq<u8>) -> bool {
    s[6] & 0x08 != 0
}

/// Whether flags 6 announce a 512-byte trainer.
pub open spec fn has_trainer(s: Seq<u8>) -> bool {
    s[6] & 0x04 != 0
}

/// Whether the page counts are those of mapper 0 (one or two program pages, one character page).
pub open spec fn sizes_ok(s: Seq<u8>) -> bool {
    (s[4] == 1 || s[4] == 2) && s[5] == 1
}

/// Offset of program ROM in the image.
pub open spec fn prg_start(s: Seq<u8>) -> int {
    HEADER_SIZE + if has_trainer(s) { TRAINER_SIZE as int } else { 0 }
}

/// Offset of character ROM in the image.
pub open spec fn chr_start(s: Seq<u8>) -> int {
    prg_start(s) + s[4] as int * PRG_ROM_PAGE_SIZE
}

/// Offset just after character ROM.
pub open spec fn image_end(s: Seq<u8>) -> int {
    chr_start(s) + s[5] as int * CHR_ROM_PAGE_SIZE
}

/// The mapper id: high nibble from flags 7, low nibble from the high nibble of flags 6.
pub open spec fn mapper_of(s: Seq<u8>) -> u8 {
    (s[7] & 0xF0) | (s[6] >> 4u8)
}

/// The mirroring that flags 6 select.
pub open spec fn mirroring_of(s: Seq<u8>) -> Mirroring {
    if s[6] & 0x01 != 0 { Mirroring::Vertical } else { Mirroring::Horizontal }
}

/// The error that loading image `s` gives, checked in this order; `None` when it loads.
pub open spec fn load_error(s: Seq<u8>) -> Option<NesError> {
    if !magic_ok(s) {
        Some(NesError::BadHeader)
    } else if extended_format(s) {
        Some(NesError::UnsupportedFormat)
    } else if four_screen(s) {
        Some(NesError::UnsupportedMirroring)
    } else if !sizes_ok(s) {
        Some(NesError::UnsupportedRomSize)
    } else if s.len() < image_end(s) {
        Some(NesError::BadHeader)
    } else {
        None
    }
}

impl ROM {
    /// A cartridge that mapper 0 can run: one or two program pages, one character page,
    /// and two-screen mirroring.
    pub open spec fn wf(&self) -> bool {
        &&& (self.prg_rom@.len() == PRG_ROM_PAGE_SIZE || self.prg_rom@.len() == 2 * PRG_ROM_PAGE_SIZE)
        &&& self.chr_rom@.len() == CHR_ROM_PAGE_SIZE
        &&& self.mirroring != Mirroring::FourScreen
    }

    /// A cartridge of zeros: one program page, one character page, horizontal mirroring.
    pub fn new_empty() -> (r: ROM)
        ensures
            r.wf(),
            r.mapper == 0,
            r.mirroring == Mirroring::Horizontal,
            r.prg_rom@ == Seq::new(PRG_ROM_PAGE_SIZE as nat, |i: int| 0u8),
            r.chr_rom@ == Seq::new(CHR_ROM_PAGE_SIZE as nat, |i: int| 0u8),
    {
        let prg_rom = vec![0u8; PRG_ROM_PAGE_SIZE];
        let chr_rom = vec![0u8; CHR_ROM_PAGE_SIZE];
        assert(prg_rom@ =~= Seq::new(PRG_ROM_PAGE_SIZE as nat, |i: int| 0u8));
        assert(chr_rom@ =~= Seq::new(CHR_ROM_PAGE_SIZE as nat, |i: int| 0u8));
        ROM { mirroring: Mirroring::Horizontal, mapper: 0, prg_rom, chr_rom }
    }

    /// Loads a cartridge image: a 16-byte header, an optional 512-byte trainer, then
    /// program ROM and character ROM.
    pub fn new(raw: Vec<u8>) -> (r: Result<ROM, NesError>)
        ensures
            load_error(raw@) matches Some(e) ==> r == Err::<ROM, NesError>(e),
            load_error(raw@) is None ==> (r matches Ok(rom) && rom.wf()
                && rom.mirroring == mirroring_of(raw@)
                && rom.mapper == mapper_of(raw@)
                && rom.prg_rom@ == raw@.subrange(prg_start(raw@), chr_start(raw@))
                && rom.chr_rom@ == raw@.subrange(chr_start(raw@), image_end(raw@))),
    {
        if raw.len() < HEADER_SIZE || raw[0] != 0x4E || raw[1] != 0x45 || raw[2] != 0x53
            || raw[3] != 0x1A {
            return Err(NesError::BadHeader);
        }
        let flag_6 = raw[6];
        let flag_7 = raw[7];
        if (flag_7 >> 2u8) & 0x03 != 0 {
            return Err(NesError::UnsupportedFormat);
        }
        if flag_6 & 0x08 != 0 {
            return Err(NesError::UnsupportedMirroring);
        }
        let prg_pages = raw[4];
        let chr_pages = raw[5];
        if !((prg_pages == 1 || prg_pages == 2) && chr_pages == 1) {
            return Err(NesError::UnsupportedRomSize);
        }
        let prg_rom_start: usize = HEADER_SIZE + if flag_6 & 0x04 != 0 { TRAINER_SIZE } else { 0 };
        let prg_rom_size: usize = prg_pages as usize * PRG_ROM_PAGE_SIZE;
        let chr_rom_start: usize = prg_rom_start + prg_rom_size;
        let chr_rom_size: usize = chr_pages as usize * CHR_ROM_PAGE_SIZE;
        if raw.len() < chr_rom_start + chr_rom_size {
            return Err(NesError::BadHeader);
        }
        let mirroring = if flag_6 & 0x01 != 0 { Mirroring::Vertical } else { Mirroring::Horizontal };
        let mapper = (flag_7 & 0xF0) | (flag_6 >> 4u8);
        let prg_rom = copy_range(&raw, prg_rom_start, prg_rom_size);
        let chr_rom = copy_range(&raw, chr_rom_start, chr_rom_size);
        Ok(ROM { mirroring, mapper, prg_rom, chr_rom })
    }

    /// The program-ROM index that CPU address `addr` reaches: a single 16 KiB bank is
    /// mirrored into the upper window.
    pub open spec fn prg_index(&self, addr: u16) -> int {
        if self.prg_rom@.len() == PRG_ROM_PAGE_SIZE {
            (addr - 0x8000) % 0x4000
        } else {
            addr - 0x8000
        }
    }

    /// Reads program ROM at a CPU address in `0x8000..=0xFFFF`.
    pub fn read_prg(&self, addr: u16) -> (r: u8)
        requires
            self.wf(),
            addr >= 0x8000,
        ensures
            0 <= self.prg_index(addr) < self.prg_rom@.len(),
            r == self.prg_rom@[self.prg_index(addr)],
    {
        let mut index: usize = (addr - 0x8000) as usize;
        if self.prg_rom.len() == PRG_ROM_PAGE_SIZE {
            index = index % 0x4000;
        }
        self.prg_rom[index]
    }

    /// Reads character ROM at a PPU address in `0x0000..=0x1FFF`.
    pub fn read_chr(&self, addr: u16) -> (r: u8)
        requires
            self.wf(),
            addr < 0x2000,
        ensures
            r == self.chr_rom@[addr as int],
    {
        self.chr_rom[addr as usize]
    }
}

/// Copies `len` bytes of `raw` starting at `start`.
fn copy_range(raw: &Vec<u8>, start: usize, len: usize) -> (r: Vec<u8>)
    requires
        start + len <= raw@.len(),
    ensures
        r@ == raw@.subrange(start as int, start + len),
{
    let mut out: Vec<u8> = Vec::with_capacity(len);
    let n = raw.len();
    let mut i: usize = 0;
    while i < len
        invariant
            i <= len,
            n == raw@.len(),
            start + len <= raw@.len(),
            out@ == raw@.subrange(start as int, start + i),
        decreases len - i,
    {
        out.push(raw[start + i]);
        i = i + 1;
        assert(out@ =~= raw@.subrange(start as int, start + i));
    }
    out
}

/// A cartridge with two program pages of `1`s, one character page of `2`s, vertical
/// mirroring and mapper id 3.
pub fn test_rom() -> (r: ROM)
    ensures
        r.wf(),
        r.mapper == 3,
        r.mirroring == Mirroring::Vertical,
        r.prg_rom@ == Seq::new(2 * PRG_ROM_PAGE_SIZE as nat, |i: int| 1u8),
        r.chr_rom@ == Seq::new(CHR_ROM_PAGE_SIZE as nat, |i: int| 2u8),
{
    let prg_rom = vec![1u8; 2 * PRG_ROM_PAGE_SIZE];
    let chr_rom = vec![2u8; CHR_ROM_PAGE_SIZE];
    assert(prg_rom@ =~= Seq::new(2 * PRG_ROM_PAGE_SIZE as nat, |i: int| 1u8));
    assert(chr_rom@ =~= Seq::new(CHR_ROM_PAGE_SIZE as nat, |i: int| 2u8));
    ROM { mirroring: Mirroring::Vertical, mapper: 3, prg_rom, chr_rom }
}

} // verus!
