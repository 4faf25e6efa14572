use crate::{Access, IoRegion, Register, Uart16550IO, MCR};
use vstd::prelude::*;

verus! {

impl<R: Register> MCR<R> {
    /// Writes the modem-control byte.
    pub fn write<IO: Uart16550IO<R>>(&self, io_region: &mut IoRegion<R, IO>, val: ModemControl)
        ensures
            final(io_region).trace() == old(io_region).trace().push(
                Access::Write { offset: self.spec_offset(), value: val.0 },
            ),
    {
        io_region.write_byte(self.offset, val.0);
    }

    /// Reads the modem-control byte.
    pub fn read<IO: Uart16550IO<R>>(&self, io_region: &mut IoRegion<R, IO>) -> (r: ModemControl)
        ensures
            final(io_region).trace() == old(io_region).trace().push(
                Access::Read { offset: self.spec_offset(), value: r.0 },
            ),
    {
        let val = io_region.read_byte(self.offset);
        ModemControl(val)
    }
}

/// Modem-control settings, kept as the raw byte; its bits are not decoded.
#[derive(Clone, Copy, PartialEq, Eq, Structural, Default, Debug)]
pub struct ModemControl(pub u8);

} // verus!
