use crate::{with_bits, Access, IoRegion, Register, Uart16550IO, IER};
use vstd::prelude::*;

verus! {

impl<R: Register> IER<R> {
    /// Writes the set of enabled interrupt sources.
    pub fn write<IO: Uart16550IO<R>>(&self, io_region: &mut IoRegion<R, IO>, val: InterruptTypes)
        ensures
            final(io_region).trace() == old(io_region).trace().push(
                Access::Write { offset: self.spec_offset(), value: val.0 },
            ),
    {
        io_region.write_byte(self.offset, val.0);
    }

    /// Reads the set of enabled interrupt sources.
    pub fn read<IO: Uart16550IO<R>>(&self, io_region: &mut IoRegion<R, IO>) -> (r: InterruptTypes)
        ensures
            final(io_region).trace() == old(io_region).trace().push(
                Access::Read { offset: self.spec_offset(), value: r.0 },
            ),
    {
        let val = io_region.read_byte(self.offset);
        InterruptTypes(val)
    }

    /// Writes a raw register value; with the divisor-latch access bit set this
    /// is the high divisor byte.
    pub(crate) fn write_divisor<IO: Uart16550IO<R>>(&self, io_region: &mut IoRegion<R, IO>, val: R)
        ensures
            final(io_region).trace() == old(io_region).trace().push(
                Access::Write { offset: self.spec_offset(), value: val.spec_val() },
            ),
    {
        io_region.write_at(self.offset, val);
    }
}

/// The interrupt sources that are enabled: received data available (bit 0),
/// transmit holding register empty (bit 1), receiver line status (bit 2),
/// modem status (bit 3).
#[derive(Clone, Copy, PartialEq, Eq, Structural, Default, Debug)]
pub struct InterruptTypes(pub u8);

impl InterruptTypes {
    /// No interrupt source enabled.
    pub fn zero() -> (r: Self)
        ensures
            r.0 == 0,
    {
        InterruptTypes(0)
    }

    /// Enables or disables the received-data-available interrupt.
    pub fn set_rda(self, on: bool) -> (r: Self)
        ensures
            r.0 == with_bits(self.0, 0x01, on),
    {
        if on {
            InterruptTypes(self.0 | 0x01)
        } else {
            InterruptTypes(self.0 & !0x01u8)
        }
    }

    /// Whether the received-data-available interrupt is enabled.
    pub fn rda(self) -> (r: bool)
        ensures
            r == (self.0 & 0x01 != 0),
    {
        self.0 & 0x01 != 0
    }

    /// Enables or disables the transmit-holding-register-empty interrupt.
    pub fn set_thre(self, on: bool) -> (r: Self)
        ensures
            r.0 == with_bits(self.0, 0x02, on),
    {
        if on {
            InterruptTypes(self.0 | 0x02)
        } else {
            InterruptTypes(self.0 & !0x02u8)
        }
    }

    /// Whether the transmit-holding-register-empty interrupt is enabled.
    pub fn thre(self) -> (r: bool)
        ensures
            r == (self.0 & 0x02 != 0),
    {
        self.0 & 0x02 != 0
    }

    /// Enables or disables the receiver-line-status interrupt.
    pub fn set_rls(self, on: bool) -> (r: Self)
        ensures
            r.0 == with_bits(self.0, 0x04, on),
    {
        if on {
            InterruptTypes(self.0 | 0x04)
        } else {
            InterruptTypes(self.0 & !0x04u8)
        }
    }

    /// Whether the receiver-line-status interrupt is enabled.
    pub fn rls(self) -> (r: bool)
        ensures
            r == (self.0 & 0x04 != 0),
    {
        self.0 & 0x04 != 0
    }

    /// Enables or disables the modem-status interrupt.
    pub fn set_ms(self, on: bool) -> (r: Self)
        ensures
            r.0 == with_bits(self.0, 0x08, on),
    {
        if on {
            InterruptTypes(self.0 | 0x08)
        } else {
            InterruptTypes(self.0 & !0x08u8)
        }
    }

    /// Whether the modem-status interrupt is enabled.
    pub fn ms(self) -> (r: bool)
        ensures
            r == (self.0 & 0x08 != 0),
    {
        self.0 & 0x08 != 0
    }
}

} // verus!
