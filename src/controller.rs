use vstd::prelude::*;

verus! {

/// The live button mask of a gamepad, one bit per button.
#[derive(Debug, Clone, Copy, PartialEq, Eq, Structural)]
pub struct ControllerState {
    pub bits: u8,
}

impl ControllerState {
    pub const A: u8 = 0b0000_0001;
    pub const B: u8 = 0b0000_0010;
    pub const SELECT: u8 = 0b0000_0100;
    pub const START: u8 = 0b0000_1000;
    pub const UP: u8 = 0b0001_0000;
    pub const DOWN: u8 = 0b0010_0000;
    pub const LEFT: u8 = 0b0100_0000;
    pub const RIGHT: u8 = 0b1000_0000;

    pub fn from_bits_retain(bits: u8) -> (r: ControllerState)
        ensures
            r.bits == bits,
    {
        ControllerState { bits }
    }

    pub fn bits(&self) -> (r: u8)
        ensures
            r == self.bits,
    {
        self.bits
    }

    /// Presses the buttons of `mask`.
    pub fn insert(&mut self, mask: u8)
        ensures
            final(self).bits == old(self).bits | mask,
    {
        self.bits = self.bits | mask;
    }

    /// Releases the buttons of `mask`.
    pub fn remove(&mut self, mask: u8)
        ensures
            final(self).bits == old(self).bits & !mask,
    {
        self.bits = self.bits & !mask;
    }

    /// Presses or releases the buttons of `mask`.
    pub fn set(&mut self, mask: u8, pressed: bool)
        ensures
            final(self).bits == if pressed { old(self).bits | mask } else { old(self).bits & !mask },
    {
        if pressed {
            self.insert(mask);
        } else {
            self.remove(mask);
        }
    }
}

/// A standard gamepad: a live button mask read out serially through a shift register.
#[derive(Debug, Clone, Copy)]
pub struct Controller {
    strobe: bool,
    /// Which button the next read reports; 8 once all buttons were shifted out.
    index: u8,
    pub controller_state: ControllerState,
}

/// The mathematical value of a `Controller`.
pub struct ControllerView {
    pub strobe: bool,
    pub index: u8,
    pub buttons: u8,
}

impl View for Controller {
    type V = ControllerView;

    closed spec fn view(&self) -> ControllerView {
        ControllerView { strobe: self.strobe, index: self.index, buttons: self.controller_state.bits }
    }
}

/// The bit that a read reports: the current button, or 1 once all eight were read.
pub open spec fn read_value(v: ControllerView) -> u8 {
    if v.index >= 8 { 1 } else { (v.buttons >> v.index) & 1 }
}

/// The state after a read: the shift advances unless strobe is on.
pub open spec fn read_next(v: ControllerView) -> ControllerView {
    if v.strobe || v.index >= 8 { v } else { ControllerView { index: (v.index + 1) as u8, ..v } }
}

/// The state after writing `data` to the port.
pub open spec fn write_next(v: ControllerView, data: u8) -> ControllerView {
    ControllerView { strobe: data & 1 == 1, index: 0, ..v }
}

/// The bits that `n` successive reads return.
pub open spec fn reads(v: ControllerView, n: nat) -> Seq<u8>
    decreases n,
{
    if n == 0 {
        Seq::empty()
    } else {
        seq![read_value(v)].add(reads(read_next(v), (n - 1) as nat))
    }
}

impl Controller {
    pub open spec fn wf(&self) -> bool {
        self@.index <= 8
    }

    pub fn new() -> (r: Controller)
        ensures
            r.wf(),
            r@ == (ControllerView { strobe: false, index: 0, buttons: 0 }),
    {
        Controller { strobe: false, index: 0, controller_state: ControllerState { bits: 0 } }
    }

    /// Replaces the live button mask.
    pub fn set_controller_state(&mut self, state: ControllerState)
        ensures
            final(self)@ == (ControllerView { buttons: state.bits, ..old(self)@ }),
    {
        self.controller_state = state;
    }

    /// Presses or releases the buttons of `mask` in the live mask.
    pub fn set_buttons(&mut self, mask: u8, pressed: bool)
        ensures
            final(self)@ == (ControllerView {
                buttons: if pressed { old(self)@.buttons | mask } else { old(self)@.buttons & !mask },
                ..old(self)@
            }),
    {
        self.controller_state.set(mask, pressed);
    }

    /// Reads the port: the low bit is the current button.
    pub fn read(&mut self) -> (r: u8)
        requires
            old(self).wf(),
        ensures
            final(self).wf(),
            r == read_value(old(self)@),
            final(self)@ == read_next(old(self)@),
    {
        if self.index >= 8 {
            return 1;
        }
        let value = (self.controller_state.bits >> self.index) & 1;
        if !self.strobe {
            self.index = self.index + 1;
        }
        value
    }

    /// The bit the next read would return, without shifting.
    pub fn peek(&self) -> (r: u8)
        ensures
            r == read_value(self@),
    {
        if self.index >= 8 {
            return 1;
        }
        (self.controller_state.bits >> self.index) & 1
    }

    /// Writes the strobe: the low bit of `data` turns strobe on or off, and the shift
    /// restarts at the first button.
    pub fn write(&mut self, data: u8)
        ensures
            final(self).wf(),
            final(self)@ == write_next(old(self)@, data),
    {
        self.index = 0;
        self.strobe = (data & 1) == 1;
    }
}

proof fn lemma_reads_shifting(v: ControllerView, n: nat)
    requires
        !v.strobe,
        v.index <= 8,
    ensures
        reads(v, n).len() == n,
        forall|i: int|
            0 <= i < n ==> #[trigger] reads(v, n)[i] == if v.index + i < 8 {
                (v.buttons >> ((v.index + i) as u8)) & 1
            } else {
                1u8
            },
    decreases n,
{
    if n > 0 {
        lemma_reads_shifting(read_next(v), (n - 1) as nat);
        assert forall|i: int| 0 <= i < n implies #[trigger] reads(v, n)[i] == if v.index + i < 8 {
            (v.buttons >> ((v.index + i) as u8)) & 1
        } else {
            1u8
        } by {
            if i > 0 {
                assert(reads(v, n)[i] == reads(read_next(v), (n - 1) as nat)[i - 1]);
            }
        }
    }
}

proof fn lemma_reads_strobe(v: ControllerView, n: nat)
    requires
        v.strobe,
        v.index == 0,
    ensures
        reads(v, n).len() == n,
        forall|i: int| 0 <= i < n ==> #[trigger] reads(v, n)[i] == (v.buttons >> 0u8) & 1,
    decreases n,
{
    if n > 0 {
        lemma_reads_strobe(read_next(v), (n - 1) as nat);
        assert forall|i: int| 0 <= i < n implies #[trigger] reads(v, n)[i] == (v.buttons >> 0u8)
            & 1 by {
            if i > 0 {
                assert(reads(v, n)[i] == reads(read_next(v), (n - 1) as nat)[i - 1]);
            }
        }
    }
}

/// After writing 0, the reads return the button bits of the mask least significant
/// first, then 1 for every read after the eighth; after writing 1, every read returns
/// bit 0 of the mask.
pub proof fn lemma_controller_shift(c: ControllerView, n: nat)
    ensures
        forall|i: int|
            0 <= i < n ==> #[trigger] reads(write_next(c, 0), n)[i] == if i < 8 {
                (c.buttons >> (i as u8)) & 1
            } else {
                1u8
            },
        forall|i: int| 0 <= i < n ==> #[trigger] reads(write_next(c, 1), n)[i] == c.buttons & 1,
{
    assert(0u8 & 1 == 0) by (bit_vector);
    assert(1u8 & 1 == 1) by (bit_vector);
    lemma_reads_shifting(write_next(c, 0), n);
    lemma_reads_strobe(write_next(c, 1), n);
    let b = c.buttons;
    assert((b >> 0u8) & 1 == b & 1) by (bit_vector);
}

} // verus!
