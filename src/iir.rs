use crate::{Access, IoRegion, Register, Uart16550IO, IIR_FCR};
use vstd::prelude::*;

verus! {

impl<R: Register> IIR_FCR<R> {
    /// Reads the interrupt identification.
    pub fn read<IO: Uart16550IO<R>>(&self, io_region: &mut IoRegion<R, IO>) -> (r:
        InterruptIdentification)
        ensures
            final(io_region).trace() == old(io_region).trace().push(
                Access::Read { offset: self.spec_offset(), value: r.0 },
            ),
    {
        let val = io_region.read_byte(self.offset);
        InterruptIdentification(val)
    }
}

/// The cause of a pending interrupt, highest priority first.
#[derive(Clone, Copy, PartialEq, Eq, Structural, Debug)]
pub enum PendingInterrupt {
    /// An overrun, parity, framing or break condition.
    ReceiverLineStatus,
    /// Received data reached the trigger level.
    ReceivedDataAvailable,
    /// Received data has waited in the FIFO without being read.
    Timeout,
    /// The transmit holding register is empty.
    TransmitterHoldingRegisterEmpty,
    /// A modem status input changed.
    ModemStatus,
}

/// Interrupt identification: bit 0 clear while an interrupt is pending, the
/// cause in bits 1 to 3, and the FIFO state in bits 6 and 7.
#[derive(Clone, Copy, PartialEq, Eq, Structural, Default, Debug)]
pub struct InterruptIdentification(pub u8);

impl InterruptIdentification {
    /// The pending cause, if an interrupt is pending and its code is one of the five.
    pub open spec fn spec_pending(self) -> Option<PendingInterrupt> {
        let code = (self.0 >> 1u8) & 0x07;
        if self.0 & 0x01 != 0 {
            None
        } else if code == 3 {
            Some(PendingInterrupt::ReceiverLineStatus)
        } else if code == 2 {
            Some(PendingInterrupt::ReceivedDataAvailable)
        } else if code == 6 {
            Some(PendingInterrupt::Timeout)
        } else if code == 1 {
            Some(PendingInterrupt::TransmitterHoldingRegisterEmpty)
        } else if code == 0 {
            Some(PendingInterrupt::ModemStatus)
        } else {
            None
        }
    }

    /// An interrupt is pending.
    pub fn is_interrupt_pending(self) -> (r: bool)
        ensures
            r == (self.0 & 0x01 == 0),
    {
        self.0 & 0x01 == 0
    }

    /// Decodes the pending interrupt's cause.
    pub fn pending_interrupt(self) -> (r: Option<PendingInterrupt>)
        ensures
            r == self.spec_pending(),
    {
        let code = (self.0 >> 1u8) & 0x07;
        if self.0 & 0x01 != 0 {
            None
        } else if code == 3 {
            Some(PendingInterrupt::ReceiverLineStatus)
        } else if code == 2 {
            Some(PendingInterrupt::ReceivedDataAvailable)
        } else if code == 6 {
            Some(PendingInterrupt::Timeout)
        } else if code == 1 {
            Some(PendingInterrupt::TransmitterHoldingRegisterEmpty)
        } else if code == 0 {
            Some(PendingInterrupt::ModemStatus)
        } else {
            None
        }
    }

    /// Both FIFOs are enabled.
    pub fn is_fifo_enabled(self) -> (r: bool)
        ensures
            r == (self.0 & 0xc0 == 0xc0),
    {
        self.0 & 0xc0 == 0xc0
    }
}

} // verus!
