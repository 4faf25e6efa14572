use crate::{with_bits, Access, IoRegion, Register, Uart16550IO, LCR};
use vstd::prelude::*;

verus! {

impl<R: Register> LCR<R> {
    /// Writes the line configuration.
    pub fn write<IO: Uart16550IO<R>>(&self, io_region: &mut IoRegion<R, IO>, val: LineControl)
        ensures
            final(io_region).trace() == old(io_region).trace().push(
                Access::Write { offset: self.spec_offset(), value: val.0 },
            ),
    {
        io_region.write_byte(self.offset, val.0);
    }

    /// Reads the line configuration.
    pub fn read<IO: Uart16550IO<R>>(&self, io_region: &mut IoRegion<R, IO>) -> (r: LineControl)
        ensures
            final(io_region).trace() == old(io_region).trace().push(
                Access::Read { offset: self.spec_offset(), value: r.0 },
            ),
    {
        let val = io_region.read_byte(self.offset);
        LineControl(val)
    }
}

/// Number of data bits in a character.
#[derive(Clone, Copy, PartialEq, Eq, Structural, Debug)]
pub enum CharLen {
    Five,
    Six,
    Seven,
    Eight,
}

impl CharLen {
    /// The two-bit field that selects this length.
    pub open spec fn spec_bits(self) -> u8 {
        match self {
            CharLen::Five => 0,
            CharLen::Six => 1,
            CharLen::Seven => 2,
            CharLen::Eight => 3,
        }
    }
}

/// Parity mode.
#[derive(Clone, Copy, PartialEq, Eq, Structural, Debug)]
pub enum PARITY {
    /// No parity bit.
    Disabled,
    /// The parity bit makes the count of ones odd.
    Odd,
    /// The parity bit makes the count of ones even.
    Even,
    /// The parity bit is always one.
    Mark,
    /// The parity bit is always zero.
    Space,
}

impl PARITY {
    /// The three-bit field (bits 3 to 5 of the line control, shifted down)
    /// that selects this mode.
    pub open spec fn spec_bits(self) -> u8 {
        match self {
            PARITY::Disabled => 0,
            PARITY::Odd => 1,
            PARITY::Even => 3,
            PARITY::Mark => 5,
            PARITY::Space => 7,
        }
    }
}

/// Line configuration: character length (bits 0 and 1), stop bits (bit 2),
/// parity (bits 3 to 5), break (bit 6) and divisor-latch access (bit 7).
#[derive(Clone, Copy, PartialEq, Eq, Structural, Default, Debug)]
pub struct LineControl(pub u8);

impl LineControl {
    /// The parity mode that bits 3 to 5 select; with bit 3 clear there is none.
    pub open spec fn spec_parity(self) -> PARITY {
        let b = (self.0 >> 3u8) & 0x07;
        if b & 0x01 == 0 {
            PARITY::Disabled
        } else if b == 1 {
            PARITY::Odd
        } else if b == 3 {
            PARITY::Even
        } else if b == 5 {
            PARITY::Mark
        } else {
            PARITY::Space
        }
    }

    /// The character length.
    pub fn char_len(self) -> (r: CharLen)
        ensures
            r.spec_bits() == self.0 & 0x03,
    {
        let x = self.0;
        let b = x & 0x03;
        assert(x & 0x03 <= 3) by (bit_vector);
        if b == 0 {
            CharLen::Five
        } else if b == 1 {
            CharLen::Six
        } else if b == 2 {
            CharLen::Seven
        } else {
            CharLen::Eight
        }
    }

    /// Selects the character length; the other bits stay.
    pub fn set_char_len(self, len: CharLen) -> (r: Self)
        ensures
            r.0 & 0x03 == len.spec_bits(),
            r.0 & 0xfc == self.0 & 0xfc,
    {
        let bits: u8 = match len {
            CharLen::Five => 0,
            CharLen::Six => 1,
            CharLen::Seven => 2,
            CharLen::Eight => 3,
        };
        let x = self.0;
        let r = (x & 0xfc) | bits;
        assert(((x & 0xfc) | bits) & 0x03 == bits && ((x & 0xfc) | bits) & 0xfc == x & 0xfc)
            by (bit_vector)
            requires
                bits <= 3,
        ;
        LineControl(r)
    }

    /// The parity mode.
    pub fn parity(self) -> (r: PARITY)
        ensures
            r == self.spec_parity(),
    {
        let b = (self.0 >> 3u8) & 0x07;
        if b & 0x01 == 0 {
            PARITY::Disabled
        } else if b == 1 {
            PARITY::Odd
        } else if b == 3 {
            PARITY::Even
        } else if b == 5 {
            PARITY::Mark
        } else {
            PARITY::Space
        }
    }

    /// Selects the parity mode; the other bits stay.
    pub fn set_parity(self, parity: PARITY) -> (r: Self)
        ensures
            r.spec_parity() == parity,
            r.0 & 0xc7 == self.0 & 0xc7,
    {
        let bits: u8 = match parity {
            PARITY::Disabled => 0,
            PARITY::Odd => 1,
            PARITY::Even => 3,
            PARITY::Mark => 5,
            PARITY::Space => 7,
        };
        let x = self.0;
        let r = (x & 0xc7) | (bits << 3u8);
        assert((((x & 0xc7) | (bits << 3u8)) >> 3u8) & 0x07 == bits && ((x & 0xc7) | (bits
            << 3u8)) & 0xc7 == x & 0xc7) by (bit_vector)
            requires
                bits <= 7,
        ;
        assert(0u8 & 0x01 == 0 && 1u8 & 0x01 == 1 && 3u8 & 0x01 == 1 && 5u8 & 0x01 == 1 && 7u8
            & 0x01 == 1) by (bit_vector);
        LineControl(r)
    }

    /// Two stop bits (one and a half with five-bit characters) rather than one.
    pub fn is_two_stop_bits(self) -> (r: bool)
        ensures
            r == (self.0 & 0x04 != 0),
    {
        self.0 & 0x04 != 0
    }

    /// Selects two stop bits (`on`) or one; the other bits stay.
    pub fn set_two_stop_bits(self, on: bool) -> (r: Self)
        ensures
            r.0 == with_bits(self.0, 0x04, on),
    {
        if on {
            LineControl(self.0 | 0x04)
        } else {
            LineControl(self.0 & !0x04u8)
        }
    }

    /// The transmitter holds the line at the space level.
    pub fn is_break_enabled(self) -> (r: bool)
        ensures
            r == (self.0 & 0x40 != 0),
    {
        self.0 & 0x40 != 0
    }

    /// Starts (`on`) or ends a break; the other bits stay.
    pub fn set_break(self, on: bool) -> (r: Self)
        ensures
            r.0 == with_bits(self.0, 0x40, on),
    {
        if on {
            LineControl(self.0 | 0x40)
        } else {
            LineControl(self.0 & !0x40u8)
        }
    }

    /// Offsets 0 and 1 address the divisor latches.
    pub fn is_dlr_access_enabled(self) -> (r: bool)
        ensures
            r == (self.0 & 0x80 != 0),
    {
        self.0 & 0x80 != 0
    }

    /// Sets the divisor-latch access bit; the other bits stay.
    pub fn enable_dlr_access(self) -> (r: Self)
        ensures
            r.0 == self.0 | 0x80,
    {
        LineControl(self.0 | 0x80)
    }

    /// Clears the divisor-latch access bit; the other bits stay.
    pub fn disable_dlr_access(self) -> (r: Self)
        ensures
            r.0 == self.0 & 0x7f,
    {
        LineControl(self.0 & 0x7f)
    }
}

} // verus!
