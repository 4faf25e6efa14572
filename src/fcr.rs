use crate::{with_bits, Access, IoRegion, Register, Uart16550IO, IIR_FCR};
use vstd::prelude::*;

verus! {

impl<R: Register> IIR_FCR<R> {
    /// Writes the FIFO configuration.
    pub fn write<IO: Uart16550IO<R>>(&self, io_region: &mut IoRegion<R, IO>, val: FifoControl)
        ensures
            final(io_region).trace() == old(io_region).trace().push(
                Access::Write { offset: self.spec_offset(), value: val.0 },
            ),
    {
        io_region.write_byte(self.offset, val.0);
    }
}

/// Receive FIFO fill level, in bytes, at which the receive interrupt fires.
#[derive(Clone, Copy, PartialEq, Eq, Structural, Debug)]
pub enum TriggerLevel {
    Bytes1,
    Bytes4,
    Bytes8,
    Bytes14,
}

impl TriggerLevel {
    /// The two-bit field (bits 6 and 7 of the FIFO control, shifted down)
    /// that selects this level.
    pub open spec fn spec_bits(self) -> u8 {
        match self {
            TriggerLevel::Bytes1 => 0,
            TriggerLevel::Bytes4 => 1,
            TriggerLevel::Bytes8 => 2,
            TriggerLevel::Bytes14 => 3,
        }
    }
}

/// FIFO configuration: enable (bit 0), receive FIFO reset (bit 1), transmit
/// FIFO reset (bit 2), DMA mode (bit 3), receive trigger level (bits 6 and 7).
#[derive(Clone, Copy, PartialEq, Eq, Structural, Default, Debug)]
pub struct FifoControl(pub u8);

impl FifoControl {
    /// FIFOs off, nothing reset, lowest trigger level.
    pub fn zero() -> (r: Self)
        ensures
            r.0 == 0,
    {
        FifoControl(0)
    }

    /// Turns both FIFOs on (`on`) or off; the other bits stay.
    pub fn set_fifo_enabled(self, on: bool) -> (r: Self)
        ensures
            r.0 == with_bits(self.0, 0x01, on),
    {
        if on {
            FifoControl(self.0 | 0x01)
        } else {
            FifoControl(self.0 & !0x01u8)
        }
    }

    /// Asks for the receive FIFO to be emptied; the other bits stay.
    pub fn reset_rx_fifo(self) -> (r: Self)
        ensures
            r.0 == self.0 | 0x02,
    {
        FifoControl(self.0 | 0x02)
    }

    /// Asks for the transmit FIFO to be emptied; the other bits stay.
    pub fn reset_tx_fifo(self) -> (r: Self)
        ensures
            r.0 == self.0 | 0x04,
    {
        FifoControl(self.0 | 0x04)
    }

    /// Selects DMA mode 1 (`on`) or mode 0; the other bits stay.
    pub fn set_dma_mode(self, on: bool) -> (r: Self)
        ensures
            r.0 == with_bits(self.0, 0x08, on),
    {
        if on {
            FifoControl(self.0 | 0x08)
        } else {
            FifoControl(self.0 & !0x08u8)
        }
    }

    /// Selects the receive trigger level; the other bits stay.
    pub fn set_trigger_level(self, level: TriggerLevel) -> (r: Self)
        ensures
            r.0 >> 6u8 == level.spec_bits(),
            r.0 & 0x3f == self.0 & 0x3f,
    {
        let bits: u8 = match level {
            TriggerLevel::Bytes1 => 0,
            TriggerLevel::Bytes4 => 1,
            TriggerLevel::Bytes8 => 2,
            TriggerLevel::Bytes14 => 3,
        };
        let x = self.0;
        let r = (x & 0x3f) | (bits << 6u8);
        assert(((x & 0x3f) | (bits << 6u8)) >> 6u8 == bits && ((x & 0x3f) | (bits << 6u8)) & 0x3f
            == x & 0x3f) by (bit_vector)
            requires
                bits <= 3,
        ;
        FifoControl(r)
    }
}

} // verus!
