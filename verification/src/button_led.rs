//! A push button and a row of eight LEDs on top of plain memory.
use vstd::prelude::*;
use crate::bus::Bus;

verus! {

/// A write here sets the LEDs.
pub const LED: u16 = 0;

/// A read here tells whether the button is down: 1 if it is, 0 if not.
pub const BUTTON: u16 = 1;

/// The device as the bus contract sees it.
pub struct ButtonLedState {
    /// Whether the button is held down.
    pub button: bool,
    /// The byte shown on the LEDs.
    pub led: u8,
    /// The 64K store behind every address that is not special.
    pub memory: Seq<u8>,
}

impl ButtonLedState {
    /// The store covers the address space.
    pub open spec fn wf(self) -> bool {
        self.memory.len() == 65536
    }

    /// Button up, LEDs dark, store empty.
    pub open spec fn initial() -> Self {
        ButtonLedState { button: false, led: 0, memory: Seq::new(65536, |i: int| 0u8) }
    }
}

/// The button and LED device.
pub struct ButtonLedEmu {
    button: bool,
    led: u8,
    memory: [u8; 65536],
}

impl View for ButtonLedEmu {
    type V = ButtonLedState;

    closed spec fn view(&self) -> ButtonLedState {
        ButtonLedState { button: self.button, led: self.led, memory: self.memory@ }
    }
}

impl ButtonLedEmu {
    /// A device with the button up, the LEDs dark and an empty store.
    pub fn new() -> (device: Self)
        ensures
            device@ == ButtonLedState::initial(),
    {
        let device = ButtonLedEmu { button: false, led: 0, memory: [0u8; 65536] };
        assert(device@.memory =~= ButtonLedState::initial().memory);
        device
    }

    /// The byte shown on the LEDs.
    pub fn led(&self) -> (led: u8)
        ensures
            led == self@.led,
    {
        self.led
    }

    /// Whether the button is held down.
    pub fn button(&self) -> (down: bool)
        ensures
            down == self@.button,
    {
        self.button
    }

    /// Presses or releases the button.
    pub fn set_button(&mut self, down: bool)
        ensures
            final(self)@ == (ButtonLedState { button: down, ..old(self)@ }),
    {
        self.button = down;
    }
}

impl Bus for ButtonLedEmu {
    open spec fn valid(state: ButtonLedState) -> bool {
        state.wf()
    }

    open spec fn special(address: u16) -> bool {
        address == LED || address == BUTTON
    }

    open spec fn read_byte(state: ButtonLedState, address: u16) -> u8 {
        if address == BUTTON {
            if state.button { 1u8 } else { 0u8 }
        } else {
            state.memory[address as int]
        }
    }

    open spec fn read_next(state: ButtonLedState, address: u16) -> ButtonLedState {
        state
    }

    open spec fn write_next(state: ButtonLedState, address: u16, data: u8) -> ButtonLedState {
        if address == LED {
            ButtonLedState { led: data, ..state }
        } else {
            ButtonLedState { memory: state.memory.update(address as int, data), ..state }
        }
    }

    /// A write to [`LED`] sets the LEDs and nothing else; every other write
    /// goes to the store, also one to [`BUTTON`], where no read will find it.
    fn write(&mut self, address: u16, data: u8) {
        if address == LED {
            self.led = data;
        } else {
            self.memory[address as usize] = data;
        }
    }

    /// A read of [`BUTTON`] reports the button; every other read comes from
    /// the store, also one of [`LED`], which no write reaches.
    fn read(&mut self, address: u16) -> (data: u8) {
        if address == BUTTON {
            if self.button { 1 } else { 0 }
        } else {
            self.memory[address as usize]
        }
    }

    proof fn lemma_valid(&self) {
    }

    proof fn lemma_next_valid(state: Self::V, address: u16, data: u8) {
    }

    proof fn lemma_store(state: ButtonLedState, address: u16, data: u8, plain: u16) {
    }
}

/// The LEDs show the byte last written to [`LED`], and a read of [`BUTTON`]
/// follows the button, whatever has been written there. Neither address
/// ever shows in the store: a write to [`LED`] leaves the store as it was.
pub proof fn lemma_led_and_button(state: ButtonLedState, address: u16, data: u8)
    requires
        state.wf(),
    ensures
        ({
            let next = ButtonLedEmu::write_next(state, address, data);
            &&& next.led == if address == LED { data } else { state.led }
            &&& next.button == state.button
            &&& ButtonLedEmu::read_byte(next, BUTTON) == if state.button { 1u8 } else { 0u8 }
            &&& address == LED ==> next.memory == state.memory
        }),
{
}

} // verus!
