use vstd::prelude::*;
use crate::controller::{Controller, ControllerView, read_next, read_value, write_next};
use crate::cpu_state::{CpuModel, CpuState};
use crate::error::NesError;
use crate::execute::word;
use crate::ppu_registers::{addr_value};
use crate::ppu_state::{
    OAM_SIZE, PpuModel, PpuState, addr_write_spec, ctrl_write_spec, data_read_spec,
    data_write_spec, oamdata_write_spec, oamdma_spec, ppudata_value, scroll_write_spec,
    status_read_spec,
};
use crate::ram::ram_index;
use crate::rom::ROM;

verus! {

/// Number of APU and I/O register slots at `0x4000..=0x401F`.
pub const APUIO_SIZE: usize = 0x20;

/// CPU cycles that an OAM DMA stalls the CPU.
pub const OAM_DMA_CYCLES: u16 = 513;

/// The CPU's view of memory: internal RAM, PPU registers, controller port, APU/IO
/// slots and cartridge program ROM, decoded by address.
pub struct CpuBus {
    pub cpu_state: CpuState,
    pub ppu_state: PpuState,
    pub controller: Controller,
    pub rom: ROM,
    pub apuio_reg: Vec<u8>,
}

/// The mathematical value of the parts of a `CpuBus` that change.
pub struct BusModel {
    pub cpu: CpuModel,
    pub ppu: PpuModel,
    pub pad: ControllerView,
    pub apu: Seq<u8>,
}

impl View for CpuBus {
    type V = BusModel;

    open spec fn view(&self) -> BusModel {
        BusModel {
            cpu: self.cpu_state@,
            ppu: self.ppu_state@,
            pad: self.controller@,
            apu: self.apuio_reg@,
        }
    }
}

/// Whether OAM DMA can copy from page `page`: a page of RAM or of program ROM.
pub open spec fn dma_page_ok(page: u8) -> bool {
    page < 0x20 || page >= 0x80
}

/// A side-effect-free read of CPU address `addr`.
pub open spec fn peek_spec(m: BusModel, rom: ROM, addr: u16) -> Result<u8, NesError> {
    if addr <= 0x1FFF {
        Ok(m.cpu.ram[ram_index(addr)])
    } else if addr == 0x4016 {
        Ok(read_value(m.pad))
    } else if 0x4000 <= addr <= 0x401F {
        Ok(m.apu[addr - 0x4000])
    } else if addr >= 0x8000 {
        Ok(rom.prg_rom@[rom.prg_index(addr)])
    } else {
        Err(NesError::IllegalRead(addr))
    }
}

/// The 256 bytes of page `page` as OAM DMA copies them.
pub open spec fn dma_source(m: BusModel, rom: ROM, page: u8) -> Seq<u8> {
    Seq::new(
        OAM_SIZE as nat,
        |i: int|
            if page < 0x20 {
                m.cpu.ram[ram_index((page as int * 256 + i) as u16)]
            } else {
                rom.prg_rom@[rom.prg_index((page as int * 256 + i) as u16)]
            },
    )
}

/// A read of CPU address `addr`: the bus afterwards (PPU and controller reads have side
/// effects) and the byte or the error.
pub open spec fn read_spec(m: BusModel, rom: ROM, addr: u16) -> (BusModel, Result<u8, NesError>) {
    if addr <= 0x1FFF {
        (m, Ok(m.cpu.ram[ram_index(addr)]))
    } else if addr <= 0x3FFF {
        let reg = addr % 8;
        if reg == 2 {
            (BusModel { ppu: status_read_spec(m.ppu), ..m }, Ok(m.ppu.status))
        } else if reg == 4 {
            (m, Ok(m.ppu.oam[m.ppu.oam_addr as int]))
        } else if reg == 7 {
            (BusModel { ppu: data_read_spec(m.ppu, rom), ..m }, Ok(ppudata_value(m.ppu, rom)))
        } else {
            (m, Err(NesError::IllegalRead(addr)))
        }
    } else if addr == 0x4016 {
        (BusModel { pad: read_next(m.pad), ..m }, Ok(read_value(m.pad)))
    } else if addr <= 0x401F {
        (m, Ok(m.apu[addr - 0x4000]))
    } else if addr >= 0x8000 {
        (m, Ok(rom.prg_rom@[rom.prg_index(addr)]))
    } else {
        (m, Err(NesError::IllegalRead(addr)))
    }
}

/// A write of `v` at CPU address `addr`: the bus afterwards and success or the error.
pub open spec fn write_spec(m: BusModel, rom: ROM, addr: u16, v: u8) -> (BusModel, Result<(), NesError>) {
    if addr <= 0x1FFF {
        (BusModel { cpu: CpuModel { ram: m.cpu.ram.update(ram_index(addr), v), ..m.cpu }, ..m }, Ok(()))
    } else if addr <= 0x3FFF {
        let reg = addr % 8;
        if reg == 0 {
            (BusModel { ppu: ctrl_write_spec(m.ppu, v), ..m }, Ok(()))
        } else if reg == 1 {
            (BusModel { ppu: PpuModel { mask: v, ..m.ppu }, ..m }, Ok(()))
        } else if reg == 2 {
            (m, Err(NesError::IllegalWrite(addr)))
        } else if reg == 3 {
            (BusModel { ppu: PpuModel { oam_addr: v, ..m.ppu }, ..m }, Ok(()))
        } else if reg == 4 {
            (BusModel { ppu: oamdata_write_spec(m.ppu, v), ..m }, Ok(()))
        } else if reg == 5 {
            (BusModel { ppu: scroll_write_spec(m.ppu, v), ..m }, Ok(()))
        } else if reg == 6 {
            (BusModel { ppu: addr_write_spec(m.ppu, v), ..m }, Ok(()))
        } else {
            (BusModel { ppu: data_write_spec(m.ppu, rom, v), ..m }, Ok(()))
        }
    } else if addr == 0x4014 {
        if dma_page_ok(v) {
            (
                BusModel {
                    ppu: oamdma_spec(m.ppu, dma_source(m, rom, v)),
                    cpu: CpuModel { stall: OAM_DMA_CYCLES, ..m.cpu },
                    ..m
                },
                Ok(()),
            )
        } else {
            (m, Err(NesError::IllegalRead((v as int * 256) as u16)))
        }
    } else if addr == 0x4016 {
        (BusModel { pad: write_next(m.pad, v), ..m }, Ok(()))
    } else if addr <= 0x401F {
        (BusModel { apu: m.apu.update(addr - 0x4000, v), ..m }, Ok(()))
    } else {
        (m, Err(NesError::IllegalWrite(addr)))
    }
}

/// The address after `a` within the same page.
pub open spec fn page_next(a: u16) -> u16 {
    ((a as int / 256) * 256 + (a as int % 256 + 1) % 256) as u16
}

/// Two reads, low byte at `lo_addr` then high byte at `hi_addr`, combined little-endian.
pub open spec fn read_word_spec(m: BusModel, rom: ROM, lo_addr: u16, hi_addr: u16) -> (BusModel, Result<u16, NesError>) {
    let (m1, r1) = read_spec(m, rom, lo_addr);
    match r1 {
        Err(e) => (m1, Err(e)),
        Ok(l) => {
            let (m2, r2) = read_spec(m1, rom, hi_addr);
            match r2 {
                Err(e) => (m2, Err(e)),
                Ok(h) => (m2, Ok(word(h, l))),
            }
        },
    }
}

/// A bus model with the program counter set to `pc`.
pub open spec fn with_pc(m: BusModel, pc: u16) -> BusModel {
    BusModel { cpu: CpuModel { pc: pc, ..m.cpu }, ..m }
}

impl CpuBus {
    pub open spec fn wf(&self) -> bool {
        &&& self.cpu_state.wf()
        &&& self.ppu_state.wf()
        &&& self.controller.wf()
        &&& self.rom.wf()
        &&& self.apuio_reg@.len() == APUIO_SIZE
        &&& self.cpu_state.dma_cycles <= OAM_DMA_CYCLES
    }

    pub fn new(cpu_state: CpuState, ppu_state: PpuState, controller: Controller, rom: ROM) -> (r: CpuBus)
        requires
            cpu_state.wf(),
            ppu_state.wf(),
            controller.wf(),
            rom.wf(),
            cpu_state.dma_cycles <= OAM_DMA_CYCLES,
        ensures
            r.wf(),
            r@.cpu == cpu_state@,
            r@.ppu == ppu_state@,
            r@.pad == controller@,
            r@.apu == Seq::new(APUIO_SIZE as nat, |i: int| 0u8),
            r.rom == rom,
    {
        let apuio_reg = vec![0u8; APUIO_SIZE];
        assert(apuio_reg@ =~= Seq::new(APUIO_SIZE as nat, |i: int| 0u8));
        CpuBus { cpu_state, ppu_state, controller, rom, apuio_reg }
    }

    /// Reads a byte; PPU register and controller reads have their side effects.
    pub fn read_byte(&mut self, index: u16) -> (r: Result<u8, NesError>)
        requires
            old(self).wf(),
        ensures
            final(self).wf(),
            final(self).rom == old(self).rom,
            (final(self)@, r) == read_spec(old(self)@, old(self).rom, index),
    {
        if index <= 0x1FFF {
            Ok(self.cpu_state.ram.read(index))
        } else if index <= 0x3FFF {
            let reg = index % 8;
            if reg == 2 {
                Ok(self.ppu_state.read_ppustatus())
            } else if reg == 4 {
                Ok(self.ppu_state.read_oamdata())
            } else if reg == 7 {
                Ok(self.ppu_state.read_ppudata(&self.rom))
            } else {
                Err(NesError::IllegalRead(index))
            }
        } else if index == 0x4016 {
            Ok(self.controller.read())
        } else if index <= 0x401F {
            Ok(self.apuio_reg[(index - 0x4000) as usize])
        } else if index >= 0x8000 {
            Ok(self.rom.read_prg(index))
        } else {
            Err(NesError::IllegalRead(index))
        }
    }

    /// Reads a byte without side effects; PPU registers cannot be peeked.
    pub fn peek_byte(&self, index: u16) -> (r: Result<u8, NesError>)
        requires
            self.wf(),
        ensures
            r == peek_spec(self@, self.rom, index),
    {
        if index <= 0x1FFF {
            Ok(self.cpu_state.ram.read(index))
        } else if index == 0x4016 {
            Ok(self.controller.peek())
        } else if 0x4000 <= index && index <= 0x401F {
            Ok(self.apuio_reg[(index - 0x4000) as usize])
        } else if index >= 0x8000 {
            Ok(self.rom.read_prg(index))
        } else {
            Err(NesError::IllegalRead(index))
        }
    }

    /// Reads a little-endian word without side effects.
    pub fn peek_two_bytes(&self, index: u16) -> (r: Result<u16, NesError>)
        requires
            self.wf(),
        ensures
            r == match peek_spec(self@, self.rom, index) {
                Err(e) => Err(e),
                Ok(l) => match peek_spec(self@, self.rom, index.wrapping_add(1)) {
                    Err(e) => Err(e),
                    Ok(h) => Ok(word(h, l)),
                },
            },
    {
        let lsb = self.peek_byte(index)?;
        let msb = self.peek_byte(index.wrapping_add(1))?;
        Ok(msb as u16 * 256 + lsb as u16)
    }

    /// Copies page `page` into OAM for an OAM DMA.
    fn oam_dma(&mut self, page: u8)
        requires
            old(self).wf(),
            dma_page_ok(page),
        ensures
            final(self).wf(),
            final(self).rom == old(self).rom,
            final(self)@ == (BusModel {
                ppu: oamdma_spec(old(self)@.ppu, dma_source(old(self)@, old(self).rom, page)),
                cpu: CpuModel { stall: OAM_DMA_CYCLES, ..old(self)@.cpu },
                ..old(self)@
            }),
    {
        let mut buffer: Vec<u8> = Vec::with_capacity(OAM_SIZE);
        let base: u16 = page as u16 * 256;
        let mut i: u16 = 0;
        while i < 256
            invariant
                self.wf(),
                i <= 256,
                base == page as int * 256,
                dma_page_ok(page),
                buffer@ == dma_source(self@, self.rom, page).subrange(0, i as int),
            decreases 256 - i,
        {
            let addr: u16 = base + i;
            let b = if page < 0x20 { self.cpu_state.ram.read(addr) } else { self.rom.read_prg(addr) };
            buffer.push(b);
            i = i + 1;
            assert(buffer@ =~= dma_source(self@, self.rom, page).subrange(0, i as int));
        }
        assert(buffer@ =~= dma_source(self@, self.rom, page));
        self.ppu_state.write_oamdma(&buffer);
        self.cpu_state.dma_cycles = OAM_DMA_CYCLES;
    }

    /// Writes a byte; PPU register, OAM DMA and controller writes have their side effects.
    pub fn write_byte(&mut self, index: u16, value: u8) -> (r: Result<(), NesError>)
        requires
            old(self).wf(),
        ensures
            final(self).wf(),
            final(self).rom == old(self).rom,
            (final(self)@, r) == write_spec(old(self)@, old(self).rom, index, value),
    {
        if index <= 0x1FFF {
            self.cpu_state.ram.write(index, value);
            Ok(())
        } else if index <= 0x3FFF {
            let reg = index % 8;
            if reg == 0 {
                self.ppu_state.write_ppuctrl(value);
            } else if reg == 1 {
                self.ppu_state.write_ppumask(value);
            } else if reg == 2 {
                return Err(NesError::IllegalWrite(index));
            } else if reg == 3 {
                self.ppu_state.write_oamaddr(value);
            } else if reg == 4 {
                self.ppu_state.write_oamdata(value);
            } else if reg == 5 {
                self.ppu_state.write_ppuscroll(value);
            } else if reg == 6 {
                self.ppu_state.write_ppuaddr(value);
            } else {
                self.ppu_state.write_ppudata(&self.rom, value);
            }
            Ok(())
        } else if index == 0x4014 {
            if value < 0x20 || value >= 0x80 {
                self.oam_dma(value);
                Ok(())
            } else {
                Err(NesError::IllegalRead(value as u16 * 256))
            }
        } else if index == 0x4016 {
            self.controller.write(value);
            Ok(())
        } else if index <= 0x401F {
            self.apuio_reg.set((index - 0x4000) as usize, value);
            Ok(())
        } else {
            Err(NesError::IllegalWrite(index))
        }
    }

    /// Reads a little-endian word at `index` and `index + 1`.
    pub fn read_two_bytes(&mut self, index: u16) -> (r: Result<u16, NesError>)
        requires
            old(self).wf(),
        ensures
            final(self).wf(),
            final(self).rom == old(self).rom,
            (final(self)@, r) == read_word_spec(old(self)@, old(self).rom, index, index.wrapping_add(1)),
    {
        let lsb = self.read_byte(index)?;
        let msb = self.read_byte(index.wrapping_add(1))?;
        Ok(msb as u16 * 256 + lsb as u16)
    }

    /// Reads a little-endian word whose high byte comes from the next address within
    /// the same page (the pointer-wrap behaviour of indirect addressing).
    pub fn read_two_page_bytes(&mut self, index: u16) -> (r: Result<u16, NesError>)
        requires
            old(self).wf(),
        ensures
            final(self).wf(),
            final(self).rom == old(self).rom,
            (final(self)@, r) == read_word_spec(old(self)@, old(self).rom, index, page_next(index)),
    {
        let lsb = self.read_byte(index)?;
        let next: u16 = (index / 256) * 256 + (index % 256 + 1) % 256;
        let msb = self.read_byte(next)?;
        Ok(msb as u16 * 256 + lsb as u16)
    }

    /// Reads the byte at the program counter and moves the counter past it.
    pub fn read_byte_from_pc(&mut self) -> (r: Result<u8, NesError>)
        requires
            old(self).wf(),
        ensures
            final(self).wf(),
            final(self).rom == old(self).rom,
            (final(self)@, r) == read_spec(
                with_pc(old(self)@, old(self)@.cpu.pc.wrapping_add(1)),
                old(self).rom,
                old(self)@.cpu.pc,
            ),
    {
        let read_addr = self.cpu_state.program_counter;
        self.cpu_state.program_counter = read_addr.wrapping_add(1);
        self.read_byte(read_addr)
    }

    /// Reads the word at the program counter and moves the counter past it.
    pub fn read_two_bytes_from_pc(&mut self) -> (r: Result<u16, NesError>)
        requires
            old(self).wf(),
        ensures
            final(self).wf(),
            final(self).rom == old(self).rom,
            (final(self)@, r) == read_word_spec(
                with_pc(old(self)@, old(self)@.cpu.pc.wrapping_add(2)),
                old(self).rom,
                old(self)@.cpu.pc,
                old(self)@.cpu.pc.wrapping_add(1),
            ),
    {
        let read_addr = self.cpu_state.program_counter;
        self.cpu_state.program_counter = read_addr.wrapping_add(2);
        self.read_two_bytes(read_addr)
    }
}


/// RAM mirroring: after writing `v` at any address `a` below `0x2000`, a read at each of
/// the four mirrors `a % 0x800 + k * 0x800` returns `v` (and has no side effect).
pub proof fn lemma_ram_mirroring(m: BusModel, rom: ROM, a: u16, v: u8, k: u16)
    requires
        m.cpu.ram.len() == 0x800,
        a < 0x2000,
        k < 4,
    ensures
        ({
            let (m1, w) = write_spec(m, rom, a, v);
            let (m2, r) = read_spec(m1, rom, (a % 0x800 + k * 0x800) as u16);
            w == Ok::<(), NesError>(()) && r == Ok::<u8, NesError>(v) && m2 == m1
        }),
{
    let b = (a % 0x800 + k * 0x800) as u16;
    assert(b & 0x7FF == a & 0x7FF) by (bit_vector)
        requires
            a < 0x2000,
            k < 4,
            b == (a % 0x800 + k * 0x800) as u16;
    crate::ram::lemma_ram_index_in_range(a);
}

} // verus!
