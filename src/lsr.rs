use crate::{Access, IoRegion, Register, Uart16550IO, LSR};
use vstd::prelude::*;

verus! {

impl<R: Register> LSR<R> {
    /// Reads the line status.
    pub fn read<IO: Uart16550IO<R>>(&self, io_region: &mut IoRegion<R, IO>) -> (r: LineStatus)
        ensures
            final(io_region).trace() == old(io_region).trace().push(
                Access::Read { offset: self.spec_offset(), value: r.0 },
            ),
    {
        let val = io_region.read_byte(self.offset);
        LineStatus(val)
    }
}

/// Line status: receiver and transmitter readiness and error conditions.
#[derive(Clone, Copy, PartialEq, Eq, Structural, Default, Debug)]
pub struct LineStatus(pub u8);

impl LineStatus {
    /// At least one received byte waits in the receive buffer or FIFO.
    pub fn is_data_ready(self) -> (r: bool)
        ensures
            r == (self.0 & 0x01 != 0),
    {
        self.0 & 0x01 != 0
    }

    /// A received byte was lost because the buffer was full.
    pub fn is_overrun_error(self) -> (r: bool)
        ensures
            r == (self.0 & 0x02 != 0),
    {
        self.0 & 0x02 != 0
    }

    /// The byte at the head of the receiver has a parity error.
    pub fn is_parity_error(self) -> (r: bool)
        ensures
            r == (self.0 & 0x04 != 0),
    {
        self.0 & 0x04 != 0
    }

    /// The byte at the head of the receiver lacks a valid stop bit.
    pub fn is_framing_error(self) -> (r: bool)
        ensures
            r == (self.0 & 0x08 != 0),
    {
        self.0 & 0x08 != 0
    }

    /// The line was held at the space level for longer than a character.
    pub fn is_break_interrupt(self) -> (r: bool)
        ensures
            r == (self.0 & 0x10 != 0),
    {
        self.0 & 0x10 != 0
    }

    /// The transmit holding register (the transmit FIFO in FIFO mode) is empty
    /// and accepts another byte.
    pub fn is_transmitter_fifo_empty(self) -> (r: bool)
        ensures
            r == (self.0 & 0x20 != 0),
    {
        self.0 & 0x20 != 0
    }

    /// Both the transmit holding register and the shift register are empty.
    pub fn is_transmitter_empty(self) -> (r: bool)
        ensures
            r == (self.0 & 0x40 != 0),
    {
        self.0 & 0x40 != 0
    }

    /// At least one byte in the receive FIFO has an error.
    pub fn is_receiver_fifo_error(self) -> (r: bool)
        ensures
            r == (self.0 & 0x80 != 0),
    {
        self.0 & 0x80 != 0
    }
}

} // verus!
