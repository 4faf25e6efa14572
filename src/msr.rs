use crate::{Access, IoRegion, Register, Uart16550IO, MSR};
use vstd::prelude::*;

verus! {

impl<R: Register> MSR<R> {
    /// Reads the modem-status byte.
    pub fn read<IO: Uart16550IO<R>>(&self, io_region: &mut IoRegion<R, IO>) -> (r: ModemStatus)
        ensures
            final(io_region).trace() == old(io_region).trace().push(
                Access::Read { offset: self.spec_offset(), value: r.0 },
            ),
    {
        let val = io_region.read_byte(self.offset);
        ModemStatus(val)
    }
}

/// Modem status, kept as the raw byte; its bits are not decoded.
#[derive(Clone, Copy, PartialEq, Eq, Structural, Default, Debug)]
pub struct ModemStatus(pub u8);

} // verus!
