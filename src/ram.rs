use vstd::prelude::*;

verus! {

/// Size of the console's internal work RAM in bytes.
pub const RAM_SIZE: usize = 0x800;

/// Mask that folds a CPU address in `0x0000..=0x1FFF` onto the 2 KiB of RAM.
pub const RAM_MASK: u16 = 0x07FF;

/// The console's 2 KiB of internal RAM, visible through `0x0000..=0x1FFF`
/// where each 2 KiB window mirrors the same bytes.
pub struct RAM {
    memory_map: Vec<u8>,
}

impl View for RAM {
    type V = Seq<u8>;

    closed spec fn view(&self) -> Seq<u8> {
        self.memory_map@
    }
}

/// The physical RAM cell that a mirrored address reaches.
pub open spec fn ram_index(addr: u16) -> int {
    (addr & RAM_MASK) as int
}

impl RAM {
    pub open spec fn wf(&self) -> bool {
        self@.len() == RAM_SIZE
    }

    pub fn new() -> (r: RAM)
        ensures
            r.wf(),
            forall|i: int| 0 <= i < RAM_SIZE ==> r@[i] == 0u8,
    {
        RAM { memory_map: vec![0u8; RAM_SIZE] }
    }

    /// Writes `value` at a mirrored address.
    pub fn write(&mut self, index: u16, value: u8)
        requires
            old(self).wf(),
            index <= 0x1FFF,
        ensures
            final(self).wf(),
            final(self)@ == old(self)@.update(ram_index(index), value),
    {
        proof { lemma_ram_index_in_range(index); }
        self.memory_map.set((index & RAM_MASK) as usize, value);
    }

    /// Reads the byte at a mirrored address.
    pub fn read(&self, index: u16) -> (r: u8)
        requires
            self.wf(),
            index <= 0x1FFF,
        ensures
            r == self@[ram_index(index)],
    {
        proof { lemma_ram_index_in_range(index); }
        self.memory_map[(index & RAM_MASK) as usize]
    }
}

pub proof fn lemma_ram_index_in_range(addr: u16)
    ensures
        0 <= ram_index(addr) < RAM_SIZE,
{
    assert((addr & 0x07FFu16) <= 0x07FFu16) by (bit_vector);
}

} // verus!
