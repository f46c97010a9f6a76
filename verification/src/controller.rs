use vstd::prelude::*;
use crate::bits::bit;
use crate::memory::{MemMapConfig, MemMapped};

verus! {

/// Which of the two controller ports.
#[derive(Clone, Copy)]
pub enum ControllerIndex {
    First,
    Second,
}

impl ControllerIndex {
    pub open spec fn spec_index(self) -> int {
        match self {
            ControllerIndex::First => 0,
            ControllerIndex::Second => 1,
        }
    }

    /// The port number, 0 or 1.
    pub fn index(self) -> (r: usize)
        ensures
            r == self.spec_index(),
    {
        match self {
            ControllerIndex::First => 0,
            ControllerIndex::Second => 1,
        }
    }
}

/// The buttons of a standard controller, in the order in which the shift register reports them.
#[derive(Clone, Copy)]
pub enum ControllerButton {
    A,
    B,
    SELECT,
    START,
    UP,
    DOWN,
    LEFT,
    RIGHT,
}

impl ControllerButton {
    /// The bit of the button in the report (A first).
    pub open spec fn spec_bit_index(self) -> u8 {
        match self {
            ControllerButton::A => 0,
            ControllerButton::B => 1,
            ControllerButton::SELECT => 2,
            ControllerButton::START => 3,
            ControllerButton::UP => 4,
            ControllerButton::DOWN => 5,
            ControllerButton::LEFT => 6,
            ControllerButton::RIGHT => 7,
        }
    }

    pub fn bit_index(self) -> (r: u8)
        ensures
            r == self.spec_bit_index(),
    {
        match self {
            ControllerButton::A => 0,
            ControllerButton::B => 1,
            ControllerButton::SELECT => 2,
            ControllerButton::START => 3,
            ControllerButton::UP => 4,
            ControllerButton::DOWN => 5,
            ControllerButton::LEFT => 6,
            ControllerButton::RIGHT => 7,
        }
    }
}

/// The report byte for a set of pressed buttons: bit i set when a button with index i is pressed.
pub open spec fn buttons_byte(state: Seq<ControllerButton>) -> u8
    decreases state.len(),
{
    if state.len() == 0 {
        0
    } else {
        buttons_byte(state.drop_last()) | (1u8 << state.last().spec_bit_index())
    }
}

/// A standard controller: an 8-bit shift register loaded from the buttons while strobed.
#[derive(Clone, Copy)]
pub struct Controller {
    pub button_state: u8,
    // While S (strobe) is high, the shift registers in the controllers are continuously reloaded
    // from the button states, and reading $4016/$4017 will keep returning the current state
    // of the first button (A)
    pub is_polling: bool,
    pub read_index: u8,
    pub mem_map_config: MemMapConfig,
}

impl View for Controller {
    type V = Controller;

    open spec fn view(&self) -> Controller {
        *self
    }
}

impl Controller {
    pub fn new() -> (r: Controller)
        ensures
            r.button_state == 0,
            !r.is_polling,
            r.read_index == 0,
            r.mem_map_config.is_mutating_read,
    {
        Controller { button_state: 0, is_polling: false, read_index: 0, mem_map_config: MemMapConfig::new() }
    }

    pub fn start_polling(&mut self)
        ensures
            *final(self) == (Controller { is_polling: true, ..*old(self) }),
    {
        self.is_polling = true;
    }

    pub fn stop_polling(&mut self)
        ensures
            *final(self) == (Controller { is_polling: false, read_index: 0, ..*old(self) }),
    {
        self.is_polling = false;
        self.read_index = 0;
    }

    /// Loads the buttons that are pressed now.
    pub fn set_button_state(&mut self, state: &[ControllerButton])
        ensures
            *final(self) == (Controller { button_state: buttons_byte(state@), ..*old(self) }),
    {
        let mut byte: u8 = 0;
        let mut i: usize = 0;
        while i < state.len()
            invariant
                i <= state@.len(),
                byte == buttons_byte(state@.take(i as int)),
            decreases state@.len() - i,
        {
            let button = state[i];
            byte = byte | (1u8 << button.bit_index());
            proof {
                assert(state@.take(i + 1).drop_last() =~= state@.take(i as int));
            }
            i += 1;
        }
        proof {
            assert(state@.take(state@.len() as int) =~= state@);
        }
        self.button_state = byte;
    }

    pub fn is_mutating_read(&self) -> (r: bool)
        ensures
            r == self.mem_map_config.is_mutating_read,
    {
        self.mem_map_config.is_mutating_read
    }

    pub fn set_is_mutating_read(&mut self, is_mutating_read: bool)
        ensures
            *final(self) == (Controller { mem_map_config: MemMapConfig { is_mutating_read }, ..*old(self) }),
    {
        self.mem_map_config.is_mutating_read = is_mutating_read;
    }
}

impl MemMapped for Controller {
    /// While strobed, button A; then the buttons one by one; after eight reads, 1.
    open spec fn peek(v: Controller, index: u16) -> u8 {
        if v.is_polling {
            if bit(v.button_state, 0) { 1 } else { 0 }
        } else if v.read_index >= 8 {
            1
        } else {
            if bit(v.button_state, v.read_index) { 1 } else { 0 }
        }
    }

    open spec fn after_read(v: Controller, index: u16) -> Controller {
        if !v.is_polling && v.read_index < 8 && v.mem_map_config.is_mutating_read {
            Controller { read_index: (v.read_index + 1) as u8, ..v }
        } else {
            v
        }
    }

    open spec fn after_write(v: Controller, index: u16, byte: u8) -> Controller {
        v
    }

    fn read(&mut self, _index: u16) -> (r: u8) {
        if self.is_polling {
            if crate::bits::get_bit(self.button_state, 0) { 1 } else { 0 }
        } else {
            // After 8 bits are read, all subsequent bits will report 1 on a standard NES controller,
            // but third party and other controllers may report other values here.
            if self.read_index >= 8 {
                0x1
            } else {
                let result = if crate::bits::get_bit(self.button_state, self.read_index) { 1 } else { 0 };
                if self.is_mutating_read() {
                    self.read_index += 1;
                }
                result
            }
        }
    }

    fn write(&mut self, _index: u16, _byte: u8) {
    }
}

/// The bit of a button in the report is set exactly when the button is in the pressed list.
pub proof fn lemma_buttons_byte(state: Seq<ControllerButton>, i: u8)
    requires
        i < 8,
    ensures
        bit(buttons_byte(state), i) <==> exists|j: int| 0 <= j < state.len() && state[j].spec_bit_index() == i,
    decreases state.len(),
{
    if state.len() == 0 {
        crate::bits::lemma_bit(0, i);
        assert((0u8 >> i) & 1 == 0) by (bit_vector);
    } else {
        let rest = state.drop_last();
        let k = state.last().spec_bit_index();
        lemma_buttons_byte(rest, i);
        let b = buttons_byte(rest);
        crate::bits::lemma_bit(b | (1u8 << k), i);
        crate::bits::lemma_bit(b, i);
        assert(k < 8 ==> (((b | (1u8 << k)) >> i) & 1 == 1 <==> (((b >> i) & 1 == 1) || i == k))) by (bit_vector)
            requires
                i < 8;
        if exists|j: int| 0 <= j < rest.len() && rest[j].spec_bit_index() == i {
            let j = choose|j: int| 0 <= j < rest.len() && rest[j].spec_bit_index() == i;
            assert(state[j] == rest[j]);
        }
        if exists|j: int| 0 <= j < state.len() && state[j].spec_bit_index() == i {
            let j = choose|j: int| 0 <= j < state.len() && state[j].spec_bit_index() == i;
            if j < state.len() - 1 {
                assert(rest[j] == state[j]);
            }
        }
    }
}

/// After the buttons are loaded and the strobe is released, the n-th read (n < 8) reports
/// whether the n-th button is among the pressed ones.
pub proof fn law_controller_reports_buttons(c: Controller, state: Seq<ControllerButton>, n: u8)
    requires
        n < 8,
        !c.is_polling,
        c.read_index == n,
        c.button_state == buttons_byte(state),
    ensures
        (Controller::peek(c, 0x4016) == 1) <==> exists|j: int| 0 <= j < state.len() && state[j].spec_bit_index() == n,
{
    lemma_buttons_byte(state, n);
}

} // verus!
