use crate::{Access, IoRegion, Register, Uart16550IO, RBR_THR};
use vstd::prelude::*;

verus! {

impl<R: Register> RBR_THR<R> {
    /// Reads one byte from the receive buffer.
    pub fn rx_data<IO: Uart16550IO<R>>(&self, io_region: &mut IoRegion<R, IO>) -> (r: u8)
        ensures
            final(io_region).trace() == old(io_region).trace().push(
                Access::Read { offset: self.spec_offset(), value: r },
            ),
    {
        io_region.read_byte(self.offset)
    }

    /// Writes one byte to the transmit holding register.
    pub fn tx_data<IO: Uart16550IO<R>>(&self, io_region: &mut IoRegion<R, IO>, val: u8)
        ensures
            final(io_region).trace() == old(io_region).trace().push(
                Access::Write { offset: self.spec_offset(), value: val },
            ),
    {
        io_region.write_byte(self.offset, val);
    }

    /// Writes a raw register value; with the divisor-latch access bit set this
    /// is the low divisor byte.
    pub(crate) fn write<IO: Uart16550IO<R>>(&self, io_region: &mut IoRegion<R, IO>, val: R)
        ensures
            final(io_region).trace() == old(io_region).trace().push(
                Access::Write { offset: self.spec_offset(), value: val.spec_val() },
            ),
    {
        io_region.write_at(self.offset, val);
    }
}

} // verus!
