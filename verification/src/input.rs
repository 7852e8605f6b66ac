//! Controller ports: a serial shift interface polled one button per read.

use vstd::prelude::*;

verus! {

/// What the host supplies: the live state of one button on one controller.
/// Buttons are polled in strobe order: A, B, Select, Start, Up, Down, Left,
/// Right (indices 0 through 7).
pub trait InputProvider: Sized {
    fn get_button_state(&self, button: u8, controller: u8) -> bool;
}

/// The controller latch: which button the next serial read reports.
pub struct Controllers<P: InputProvider> {
    pub reading_button: u8,
    pub provider: P,
}

impl<P: InputProvider> Controllers<P> {
    pub fn new(input_provider: P) -> (r: Controllers<P>)
        ensures
            r.reading_button == 0,
    {
        Controllers { reading_button: 0, provider: input_provider }
    }

    /// A write with the strobe bit set rewinds the shift position to button 0.
    pub fn write(&mut self, address: u16, data: u8)
        ensures
            final(self).provider == old(self).provider,
            final(self).reading_button == if address == 0x4016 && data & 0x01 == 0x01 {
                0u8
            } else {
                old(self).reading_button
            },
    {
        if address == 0x4016 {
            let strobe = (data & 0x01) == 0x01;
            if strobe {
                self.reading_button = 0;
            }
        }
    }

    /// A read reports the current button in bit 0 (bits 1 and 2 are left
    /// clear, the top five bits of the bus value pass through) and steps the
    /// shift position.
    pub fn read(&mut self, address: u16, data: &mut u8)
        ensures
            final(self).provider == old(self).provider,
            final(self).reading_button == old(self).reading_button.wrapping_add(1),
            *final(data) == (*old(data) & 0xf8) || *final(data) == (*old(data) & 0xf8) | 0x01,
    {
        *data = *data & 0xf8;
        let pressed = self.provider.get_button_state(self.reading_button, 0);
        if pressed {
            *data = *data | 0x01;
        }
        self.reading_button = self.reading_button.wrapping_add(1);
    }
}

} // verus!
