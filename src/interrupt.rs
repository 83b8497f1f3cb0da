use vstd::prelude::*;

verus! {

/// The kinds of interrupt the CPU knows.
#[derive(Debug, Clone, Copy, PartialEq, Eq, Structural)]
pub enum InterruptKind {
    NMI,
    RESET,
    IRQ,
    BRK,
}

/// How an interrupt is serviced: where its handler address is read from, whether the
/// pushed status carries the break flag, and whether it sets interrupt-disable.
#[derive(Debug, Clone, Copy, PartialEq, Eq, Structural)]
pub struct Interrupt {
    pub kind: InterruptKind,
    pub vector: u16,
    pub is_set_b_flag: bool,
    pub is_hardware_interrupt: bool,
}

/// The non-maskable interrupt that the PPU raises at vblank.
pub open spec fn nmi_interrupt() -> Interrupt {
    Interrupt { kind: InterruptKind::NMI, vector: 0xFFFA, is_set_b_flag: false, is_hardware_interrupt: true }
}

impl Interrupt {
    /// The non-maskable interrupt: vector `0xFFFA`, break flag clear, sets interrupt-disable.
    pub fn nmi() -> (r: Interrupt)
        ensures
            r == nmi_interrupt(),
    {
        Interrupt { kind: InterruptKind::NMI, vector: 0xFFFA, is_set_b_flag: false, is_hardware_interrupt: true }
    }
}

} // verus!
