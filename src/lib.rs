//! Register definitions and access protocol for 16550-compatible UARTs.
#![allow(non_camel_case_types)]

mod fcr;
mod ier;
mod iir;
mod lcr;
mod lsr;
mod mcr;
mod msr;
mod rbr_thr;

use core::marker::PhantomData;
use vstd::prelude::*;

pub use fcr::{FifoControl, TriggerLevel};
pub use ier::InterruptTypes;
pub use iir::{InterruptIdentification, PendingInterrupt};
pub use lcr::{CharLen, LineControl, PARITY};
pub use lsr::LineStatus;
pub use mcr::ModemControl;
pub use msr::ModemStatus;

verus! {

/// A register cell as the bus presents it.
///
/// A 16550 is wired either byte-addressed (`u8`) or word-addressed (`u32`);
/// either way only the low eight bits carry meaning.
pub trait Register: Sized + Copy {
    /// The meaningful low byte of a register value.
    spec fn spec_val(self) -> u8;

    /// The register value that carries the byte `b`.
    spec fn spec_from(b: u8) -> Self;

    /// Extracts the meaningful bits.
    fn val(self) -> (r: u8)
        ensures
            r == self.spec_val(),
    ;

    /// Builds a register value that carries `b`.
    fn from_byte(b: u8) -> (r: Self)
        ensures
            r == Self::spec_from(b),
    ;

    /// A byte put in comes back out unchanged.
    proof fn lemma_val_of_from(b: u8)
        ensures
            Self::spec_from(b).spec_val() == b,
    ;

    /// A register is one byte or one four-byte word wide.
    proof fn lemma_width()
        ensures
            vstd::layout::size_of::<Self>() == 1 || vstd::layout::size_of::<Self>() == 4,
    ;
}

/// Byte-addressed registers.
impl Register for u8 {
    open spec fn spec_val(self) -> u8 {
        self
    }

    open spec fn spec_from(b: u8) -> u8 {
        b
    }

    fn val(self) -> (r: u8) {
        self
    }

    fn from_byte(b: u8) -> (r: u8) {
        b
    }

    proof fn lemma_val_of_from(b: u8) {
    }

    proof fn lemma_width() {
        broadcast use vstd::layout::layout_of_primitives;

    }
}

/// Word-addressed registers: the low byte of the word.
impl Register for u32 {
    open spec fn spec_val(self) -> u8 {
        (self & 0xff) as u8
    }

    open spec fn spec_from(b: u8) -> u32 {
        b as u32
    }

    fn val(self) -> (r: u8) {
        (self & 0xff) as u8
    }

    fn from_byte(b: u8) -> (r: u32) {
        b as u32
    }

    proof fn lemma_val_of_from(b: u8) {
        assert((b as u32) & 0xff == b as u32) by (bit_vector);
    }

    proof fn lemma_width() {
        broadcast use vstd::layout::layout_of_primitives;

    }
}

/// One access to the register file, as issued by this library.
///
/// Only the meaningful low byte of the register value is recorded.
pub enum Access {
    /// The register at `offset` was read and held `value`.
    Read { offset: usize, value: u8 },
    /// `value` was written to the register at `offset`.
    Write { offset: usize, value: u8 },
}

/// The bus binding supplied by the host: memory-mapped hardware or a double.
///
/// Implementations must tolerate calls from several execution contexts.
pub trait Uart16550IO<R: Register> {
    /// Reads the register at byte offset `offset`.
    fn read_at(&self, offset: usize) -> R;

    /// Writes `value` to the register at byte offset `offset`.
    fn write_at(&self, offset: usize, value: R);
}

/// A boxed binding forwards to the binding inside.
impl<R: Register> Uart16550IO<R> for Box<dyn Uart16550IO<R>> {
    fn read_at(&self, offset: usize) -> R {
        (**self).read_at(offset)
    }

    fn write_at(&self, offset: usize, value: R) {
        (**self).write_at(offset, value)
    }
}

/// A host bus binding together with the record of every access made through it.
pub struct IoRegion<R: Register, IO: Uart16550IO<R>> {
    io: IO,
    trace: Ghost<Seq<Access>>,
    phantom_data: PhantomData<R>,
}

impl<R: Register, IO: Uart16550IO<R>> IoRegion<R, IO> {
    /// Every access made through this region, oldest first.
    pub closed spec fn trace(&self) -> Seq<Access> {
        self.trace@
    }

    /// Wraps a bus binding; nothing has been accessed yet.
    pub fn new(io: IO) -> (r: Self)
        ensures
            r.trace() == Seq::<Access>::empty(),
    {
        IoRegion { io, trace: Ghost(Seq::empty()), phantom_data: PhantomData }
    }

    /// The underlying bus binding.
    pub fn io(&self) -> &IO {
        &self.io
    }

    /// Reads one register and records the access.
    pub fn read_at(&mut self, offset: usize) -> (r: R)
        ensures
            final(self).trace() == old(self).trace().push(
                Access::Read { offset, value: r.spec_val() },
            ),
    {
        let r = self.io.read_at(offset);
        self.trace = Ghost(self.trace@.push(Access::Read { offset, value: r.spec_val() }));
        r
    }

    /// Writes one register and records the access.
    pub fn write_at(&mut self, offset: usize, value: R)
        ensures
            final(self).trace() == old(self).trace().push(
                Access::Write { offset, value: value.spec_val() },
            ),
    {
        self.io.write_at(offset, value);
        self.trace = Ghost(self.trace@.push(Access::Write { offset, value: value.spec_val() }));
    }

    /// Writes the register value that carries byte `b`.
    pub fn write_byte(&mut self, offset: usize, b: u8)
        ensures
            final(self).trace() == old(self).trace().push(Access::Write { offset, value: b }),
    {
        proof {
            R::lemma_val_of_from(b);
        }
        self.write_at(offset, R::from_byte(b));
    }

    /// Reads the meaningful byte of one register.
    pub fn read_byte(&mut self, offset: usize) -> (r: u8)
        ensures
            final(self).trace() == old(self).trace().push(Access::Read { offset, value: r }),
    {
        self.read_at(offset).val()
    }
}

/// Sets (`on`) or clears the bits of `mask` in `b`, keeping the others.
pub open spec fn with_bits(b: u8, mask: u8, on: bool) -> u8 {
    if on {
        b | mask
    } else {
        b & !mask
    }
}

/// Byte offset of the register block with the given index.
pub open spec fn block_offset<R>(index: nat) -> nat {
    index * vstd::layout::size_of::<R>()
}

/// Data register: receive buffer on read, transmit holding on write.
pub struct RBR_THR<R: Register> {
    offset: usize,
    phantom_data: PhantomData<R>,
}

/// Interrupt-enable register.
pub struct IER<R: Register> {
    offset: usize,
    phantom_data: PhantomData<R>,
}

/// Interrupt-identification register (read) and FIFO-control register (write).
pub struct IIR_FCR<R: Register> {
    offset: usize,
    phantom_data: PhantomData<R>,
}

/// Line-control register.
pub struct LCR<R: Register> {
    offset: usize,
    phantom_data: PhantomData<R>,
}

/// Modem-control register.
pub struct MCR<R: Register> {
    offset: usize,
    phantom_data: PhantomData<R>,
}

/// Line-status register.
pub struct LSR<R: Register> {
    offset: usize,
    phantom_data: PhantomData<R>,
}

/// Modem-status register.
pub struct MSR<R: Register> {
    offset: usize,
    phantom_data: PhantomData<R>,
}

impl<R: Register> RBR_THR<R> {
    /// Byte offset of this register.
    pub closed spec fn spec_offset(&self) -> usize {
        self.offset
    }
}

impl<R: Register> Clone for RBR_THR<R> {
    fn clone(&self) -> (r: Self)
        ensures
            r.spec_offset() == self.spec_offset(),
    {
        RBR_THR { offset: self.offset, phantom_data: PhantomData }
    }
}

impl<R: Register> Copy for RBR_THR<R> {

}

impl<R: Register> IER<R> {
    /// Byte offset of this register.
    pub closed spec fn spec_offset(&self) -> usize {
        self.offset
    }
}

impl<R: Register> Clone for IER<R> {
    fn clone(&self) -> (r: Self)
        ensures
            r.spec_offset() == self.spec_offset(),
    {
        IER { offset: self.offset, phantom_data: PhantomData }
    }
}

impl<R: Register> Copy for IER<R> {

}

impl<R: Register> IIR_FCR<R> {
    /// Byte offset of this register.
    pub closed spec fn spec_offset(&self) -> usize {
        self.offset
    }
}

impl<R: Register> Clone for IIR_FCR<R> {
    fn clone(&self) -> (r: Self)
        ensures
            r.spec_offset() == self.spec_offset(),
    {
        IIR_FCR { offset: self.offset, phantom_data: PhantomData }
    }
}

impl<R: Register> Copy for IIR_FCR<R> {

}

impl<R: Register> LCR<R> {
    /// Byte offset of this register.
    pub closed spec fn spec_offset(&self) -> usize {
        self.offset
    }
}

impl<R: Register> Clone for LCR<R> {
    fn clone(&self) -> (r: Self)
        ensures
            r.spec_offset() == self.spec_offset(),
    {
        LCR { offset: self.offset, phantom_data: PhantomData }
    }
}

impl<R: Register> Copy for LCR<R> {

}

impl<R: Register> MCR<R> {
    /// Byte offset of this register.
    pub closed spec fn spec_offset(&self) -> usize {
        self.offset
    }
}

impl<R: Register> Clone for MCR<R> {
    fn clone(&self) -> (r: Self)
        ensures
            r.spec_offset() == self.spec_offset(),
    {
        MCR { offset: self.offset, phantom_data: PhantomData }
    }
}

impl<R: Register> Copy for MCR<R> {

}

impl<R: Register> LSR<R> {
    /// Byte offset of this register.
    pub closed spec fn spec_offset(&self) -> usize {
        self.offset
    }
}

impl<R: Register> Clone for LSR<R> {
    fn clone(&self) -> (r: Self)
        ensures
            r.spec_offset() == self.spec_offset(),
    {
        LSR { offset: self.offset, phantom_data: PhantomData }
    }
}

impl<R: Register> Copy for LSR<R> {

}

impl<R: Register> MSR<R> {
    /// Byte offset of this register.
    pub closed spec fn spec_offset(&self) -> usize {
        self.offset
    }
}

impl<R: Register> Clone for MSR<R> {
    fn clone(&self) -> (r: Self)
        ensures
            r.spec_offset() == self.spec_offset(),
    {
        MSR { offset: self.offset, phantom_data: PhantomData }
    }
}

impl<R: Register> Copy for MSR<R> {

}

/// Whether `a` reads the status register at `lsr_at` and finds the bits of `mask`
/// set (`set`) or all clear (`!set`).
pub open spec fn status_poll(a: Access, lsr_at: usize, mask: u8, set: bool) -> bool {
    match a {
        Access::Read { offset, value } => offset == lsr_at && ((value & mask != 0) == set),
        Access::Write { .. } => false,
    }
}

/// The accesses of a receive pass: for each byte of `data`, a status read that
/// finds data ready, then a read of that byte from the data register; then, unless
/// the destination was `filled`, one status read that finds no data ready.
pub open spec fn polled_receive(
    t: Seq<Access>,
    lsr_at: usize,
    rbr_at: usize,
    data: Seq<u8>,
    filled: bool,
) -> bool {
    &&& t.len() == 2 * data.len() + if filled {
        0int
    } else {
        1int
    }
    &&& forall|i: int|
        0 <= i < data.len() ==> status_poll(t[2 * i], lsr_at, 0x01, true) && t[2 * i + 1]
            == Access::Read { offset: rbr_at, value: #[trigger] data[i] }
    &&& !filled ==> status_poll(t[2 * data.len() as int], lsr_at, 0x01, false)
}

/// The accesses of a transmit pass: for each byte of `data`, a status read that
/// finds the transmitter FIFO empty, then a write of that byte to the data
/// register; then, unless the source was `drained`, one status read that finds
/// the FIFO not empty.
pub open spec fn polled_transmit(
    t: Seq<Access>,
    lsr_at: usize,
    thr_at: usize,
    data: Seq<u8>,
    drained: bool,
) -> bool {
    &&& t.len() == 2 * data.len() + if drained {
        0int
    } else {
        1int
    }
    &&& forall|i: int|
        0 <= i < data.len() ==> status_poll(t[2 * i], lsr_at, 0x20, true) && t[2 * i + 1]
            == Access::Write { offset: thr_at, value: #[trigger] data[i] }
    &&& !drained ==> status_poll(t[2 * data.len() as int], lsr_at, 0x20, false)
}

/// The accesses that load the baud divisor `divisor` when the line-control
/// register holds `lcr`: read the line control, set its divisor-latch access bit,
/// write the low then the high divisor byte, restore the line control.
pub open spec fn divisor_accesses<R>(lcr: u8, divisor: u16) -> Seq<Access> {
    let lcr_at = block_offset::<R>(3) as usize;
    seq![
        Access::Read { offset: lcr_at, value: lcr },
        Access::Write { offset: lcr_at, value: lcr | 0x80 },
        Access::Write { offset: block_offset::<R>(0) as usize, value: divisor as u8 },
        Access::Write { offset: block_offset::<R>(1) as usize, value: (divisor >> 8u16) as u8 },
        Access::Write { offset: lcr_at, value: lcr },
    ]
}

/// A 16550 UART: its seven register blocks at fixed offsets, and the bus they live on.
pub struct Uart16550<R: Register, IO: Uart16550IO<R>> {
    rbr_thr: RBR_THR<R>,
    ier: IER<R>,
    iir_fcr: IIR_FCR<R>,
    lcr: LCR<R>,
    mcr: MCR<R>,
    lsr: LSR<R>,
    msr: MSR<R>,
    io_region: IoRegion<R, IO>,
}

impl<R: Register, IO: Uart16550IO<R>> Uart16550<R, IO> {
    /// Each block sits at its index times the register width.
    pub closed spec fn wf(&self) -> bool {
        &&& self.rbr_thr.offset == block_offset::<R>(0)
        &&& self.ier.offset == block_offset::<R>(1)
        &&& self.iir_fcr.offset == block_offset::<R>(2)
        &&& self.lcr.offset == block_offset::<R>(3)
        &&& self.mcr.offset == block_offset::<R>(4)
        &&& self.lsr.offset == block_offset::<R>(5)
        &&& self.msr.offset == block_offset::<R>(6)
    }

    /// Every access this UART has made on its bus, oldest first.
    pub closed spec fn trace(&self) -> Seq<Access> {
        self.io_region.trace()
    }

    /// Lays out the register blocks for the width `R` over the bus `io_region`.
    pub fn new(io_region: IO) -> (r: Self)
        ensures
            r.wf(),
            r.trace() == Seq::<Access>::empty(),
    {
        proof {
            R::lemma_width();
        }
        let width = core::mem::size_of::<R>();
        Uart16550 {
            rbr_thr: RBR_THR { offset: 0, phantom_data: PhantomData },
            ier: IER { offset: width, phantom_data: PhantomData },
            iir_fcr: IIR_FCR { offset: 2 * width, phantom_data: PhantomData },
            lcr: LCR { offset: 3 * width, phantom_data: PhantomData },
            mcr: MCR { offset: 4 * width, phantom_data: PhantomData },
            lsr: LSR { offset: 5 * width, phantom_data: PhantomData },
            msr: MSR { offset: 6 * width, phantom_data: PhantomData },
            io_region: IoRegion::new(io_region),
        }
    }

    /// The bus binding.
    pub fn io_region(&self) -> &IO {
        self.io_region.io()
    }

    /// The bus with its access record, for driving the register blocks directly.
    pub fn io_region_mut(&mut self) -> (r: &mut IoRegion<R, IO>)
        requires
            old(self).wf(),
        ensures
            r.trace() == old(self).trace(),
            final(self).wf(),
            final(self).trace() == final(r).trace(),
    {
        &mut self.io_region
    }

    /// The data register block.
    pub fn rbr_thr(&self) -> (r: &RBR_THR<R>)
        requires
            self.wf(),
        ensures
            r.spec_offset() == block_offset::<R>(0),
    {
        &self.rbr_thr
    }

    /// The interrupt-enable register block.
    pub fn ier(&self) -> (r: &IER<R>)
        requires
            self.wf(),
        ensures
            r.spec_offset() == block_offset::<R>(1),
    {
        &self.ier
    }

    /// The interrupt-identification / FIFO-control register block.
    pub fn iir_fcr(&self) -> (r: &IIR_FCR<R>)
        requires
            self.wf(),
        ensures
            r.spec_offset() == block_offset::<R>(2),
    {
        &self.iir_fcr
    }

    /// The line-control register block.
    pub fn lcr(&self) -> (r: &LCR<R>)
        requires
            self.wf(),
        ensures
            r.spec_offset() == block_offset::<R>(3),
    {
        &self.lcr
    }

    /// The modem-control register block.
    pub fn mcr(&self) -> (r: &MCR<R>)
        requires
            self.wf(),
        ensures
            r.spec_offset() == block_offset::<R>(4),
    {
        &self.mcr
    }

    /// The line-status register block.
    pub fn lsr(&self) -> (r: &LSR<R>)
        requires
            self.wf(),
        ensures
            r.spec_offset() == block_offset::<R>(5),
    {
        &self.lsr
    }

    /// The modem-status register block.
    pub fn msr(&self) -> (r: &MSR<R>)
        requires
            self.wf(),
        ensures
            r.spec_offset() == block_offset::<R>(6),
    {
        &self.msr
    }

    /// Loads `divisor` into the baud divisor latches and leaves the line
    /// control as it found it.
    pub fn write_divisor(&mut self, divisor: u16)
        requires
            old(self).wf(),
        ensures
            final(self).wf(),
            exists|lcr: u8|
                final(self).trace() == old(self).trace() + #[trigger] divisor_accesses::<R>(
                    lcr,
                    divisor,
                ),
    {
        let lcr = self.lcr.read(&mut self.io_region);
        self.lcr.write(&mut self.io_region, lcr.enable_dlr_access());
        self.rbr_thr.write(&mut self.io_region, R::from_byte(divisor as u8));
        self.ier.write_divisor(&mut self.io_region, R::from_byte((divisor >> 8u16) as u8));
        self.lcr.write(&mut self.io_region, lcr);
        proof {
            R::lemma_val_of_from(divisor as u8);
            R::lemma_val_of_from((divisor >> 8u16) as u8);
            assert(self.trace() =~= old(self).trace() + divisor_accesses::<R>(lcr.0, divisor));
        }
    }

    /// Moves received bytes into `buf`, polling the data-ready flag once per
    /// byte, until the receiver has nothing or `buf` is full; returns the count.
    pub fn read(&mut self, buf: &mut [u8]) -> (count: usize)
        requires
            old(self).wf(),
        ensures
            final(self).wf(),
            count <= old(buf)@.len(),
            final(buf)@.len() == old(buf)@.len(),
            final(buf)@.subrange(count as int, old(buf)@.len() as int) == old(buf)@.subrange(
                count as int,
                old(buf)@.len() as int,
            ),
            old(self).trace().len() <= final(self).trace().len(),
            final(self).trace().subrange(0, old(self).trace().len() as int) == old(self).trace(),
            polled_receive(
                final(self).trace().skip(old(self).trace().len() as int),
                block_offset::<R>(5) as usize,
                block_offset::<R>(0) as usize,
                final(buf)@.subrange(0, count as int),
                count == old(buf)@.len(),
            ),
    {
        let ghost start = self.trace();
        let ghost orig = buf@;
        let mut count: usize = 0;
        while count < buf.len()
            invariant
                self.wf(),
                count <= buf@.len(),
                orig == old(buf)@,
                start == old(self).trace(),
                buf@.len() == orig.len(),
                forall|j: int| count <= j < orig.len() ==> #[trigger] buf@[j] == orig[j],
                start.len() <= self.trace().len(),
                self.trace().subrange(0, start.len() as int) == start,
                polled_receive(
                    self.trace().skip(start.len() as int),
                    block_offset::<R>(5) as usize,
                    block_offset::<R>(0) as usize,
                    buf@.subrange(0, count as int),
                    true,
                ),
            decreases buf@.len() - count,
        {
            let ghost t0 = self.trace();
            let ghost d0 = buf@.subrange(0, count as int);
            let status = self.lsr.read(&mut self.io_region);
            if status.is_data_ready() {
                let c = self.rbr_thr.rx_data(&mut self.io_region);
                buf[count] = c;
                count += 1;
                proof {
                    let d1 = buf@.subrange(0, count as int);
                    assert(d1 =~= d0.push(c));
                    assert(self.trace().subrange(0, start.len() as int) =~= start);
                    let t = self.trace().skip(start.len() as int);
                    let u = t0.skip(start.len() as int);
                    assert(t =~= u.push(Access::Read { offset: self.lsr.offset, value: status.0 }).push(
                        Access::Read { offset: self.rbr_thr.offset, value: c },
                    ));
                    assert forall|i: int| 0 <= i < d1.len() implies status_poll(
                        t[2 * i],
                        block_offset::<R>(5) as usize,
                        0x01,
                        true,
                    ) && t[2 * i + 1] == Access::Read {
                        offset: block_offset::<R>(0) as usize,
                        value: #[trigger] d1[i],
                    } by {
                        if i < d0.len() {
                            assert(d1[i] == d0[i]);
                        }
                    }
                }
            } else {
                proof {
                    assert(self.trace().subrange(0, start.len() as int) =~= start);
                    let t = self.trace().skip(start.len() as int);
                    let u = t0.skip(start.len() as int);
                    assert(t =~= u.push(Access::Read { offset: self.lsr.offset, value: status.0 }));
                    assert forall|i: int| 0 <= i < d0.len() implies status_poll(
                        t[2 * i],
                        block_offset::<R>(5) as usize,
                        0x01,
                        true,
                    ) && t[2 * i + 1] == Access::Read {
                        offset: block_offset::<R>(0) as usize,
                        value: #[trigger] d0[i],
                    } by {}
                    assert(buf@.subrange(count as int, orig.len() as int) =~= orig.subrange(
                        count as int,
                        orig.len() as int,
                    ));
                }
                return count;
            }
        }
        assert(buf@.subrange(count as int, orig.len() as int) =~= orig.subrange(
            count as int,
            orig.len() as int,
        ));
        count
    }

    /// Pushes bytes of `buf` to the transmitter, polling the FIFO-empty flag
    /// once per byte, until the FIFO is not empty or `buf` is exhausted;
    /// returns the count.
    pub fn write(&mut self, buf: &[u8]) -> (count: usize)
        requires
            old(self).wf(),
        ensures
            final(self).wf(),
            count <= buf@.len(),
            old(self).trace().len() <= final(self).trace().len(),
            final(self).trace().subrange(0, old(self).trace().len() as int) == old(self).trace(),
            polled_transmit(
                final(self).trace().skip(old(self).trace().len() as int),
                block_offset::<R>(5) as usize,
                block_offset::<R>(0) as usize,
                buf@.subrange(0, count as int),
                count == buf@.len(),
            ),
    {
        let ghost start = self.trace();
        let mut count: usize = 0;
        while count < buf.len()
            invariant
                self.wf(),
                count <= buf@.len(),
                start == old(self).trace(),
                start.len() <= self.trace().len(),
                self.trace().subrange(0, start.len() as int) == start,
                polled_transmit(
                    self.trace().skip(start.len() as int),
                    block_offset::<R>(5) as usize,
                    block_offset::<R>(0) as usize,
                    buf@.subrange(0, count as int),
                    true,
                ),
            decreases buf@.len() - count,
        {
            let ghost t0 = self.trace();
            let ghost d0 = buf@.subrange(0, count as int);
            let status = self.lsr.read(&mut self.io_region);
            if status.is_transmitter_fifo_empty() {
                let c = buf[count];
                self.rbr_thr.tx_data(&mut self.io_region, c);
                count += 1;
                proof {
                    let d1 = buf@.subrange(0, count as int);
                    assert(d1 =~= d0.push(c));
                    assert(self.trace().subrange(0, start.len() as int) =~= start);
                    let t = self.trace().skip(start.len() as int);
                    let u = t0.skip(start.len() as int);
                    assert(t =~= u.push(Access::Read { offset: self.lsr.offset, value: status.0 }).push(
                        Access::Write { offset: self.rbr_thr.offset, value: c },
                    ));
                    assert forall|i: int| 0 <= i < d1.len() implies status_poll(
                        t[2 * i],
                        block_offset::<R>(5) as usize,
                        0x20,
                        true,
                    ) && t[2 * i + 1] == Access::Write {
                        offset: block_offset::<R>(0) as usize,
                        value: #[trigger] d1[i],
                    } by {
                        if i < d0.len() {
                            assert(d1[i] == d0[i]);
                        }
                    }
                }
            } else {
                proof {
                    assert(self.trace().subrange(0, start.len() as int) =~= start);
                    let t = self.trace().skip(start.len() as int);
                    let u = t0.skip(start.len() as int);
                    assert(t =~= u.push(Access::Read { offset: self.lsr.offset, value: status.0 }));
                    assert forall|i: int| 0 <= i < d0.len() implies status_poll(
                        t[2 * i],
                        block_offset::<R>(5) as usize,
                        0x20,
                        true,
                    ) && t[2 * i + 1] == Access::Write {
                        offset: block_offset::<R>(0) as usize,
                        value: #[trigger] d0[i],
                    } by {}
                }
                return count;
            }
        }
        count
    }
}

/// For either width, block `i` lies wholly below block `j` whenever `i < j`:
/// offsets are the index times the width, strictly increasing, and no block
/// overlaps the next.
pub proof fn block_offsets_are_spaced<R: Register>(i: nat, j: nat)
    requires
        i < j < 7,
    ensures
        block_offset::<R>(i) == i * vstd::layout::size_of::<R>(),
        block_offset::<R>(i) < block_offset::<R>(j),
        block_offset::<R>(i) + vstd::layout::size_of::<R>() <= block_offset::<R>(j),
{
    R::lemma_width();
    let w = vstd::layout::size_of::<R>();
    assert(i * w + w <= j * w) by (nonlinear_arith)
        requires
            i < j,
            w >= 1,
    ;
}

/// Loading a divisor, for any divisor and either width, hands the line-control
/// register back exactly as it was read: the first access reads it, the last
/// writes that same value back, the only other write to it sets the access bit
/// and changes nothing else, and the divisor bytes go elsewhere.
pub proof fn divisor_write_restores_line_control<R: Register>(lcr: u8, divisor: u16)
    ensures
        ({
            let t = divisor_accesses::<R>(lcr, divisor);
            let lcr_at = block_offset::<R>(3) as usize;
            &&& t[0] == Access::Read { offset: lcr_at, value: lcr }
            &&& t[4] == Access::Write { offset: lcr_at, value: lcr }
            &&& t[1] matches Access::Write { offset, value } && offset == lcr_at && value & 0x80
                == 0x80 && value & 0x7f == lcr & 0x7f
            &&& t[2] matches Access::Write { offset, .. } && offset != lcr_at
            &&& t[3] matches Access::Write { offset, .. } && offset != lcr_at
        }),
{
    R::lemma_width();
    assert((lcr | 0x80) & 0x80 == 0x80 && (lcr | 0x80) & 0x7f == lcr & 0x7f) by (bit_vector);
}

/// A word-wide register carries its low byte: the meaningful bits of any word
/// are the word masked to eight bits, and a byte put into a word comes back
/// unchanged (it is its own low byte).
pub proof fn wide_register_keeps_low_byte(word: u32, b: u8)
    ensures
        word.spec_val() == (word & 0xff) as u8,
        <u32 as Register>::spec_from(b).spec_val() == b & 0xff,
{
    u32::lemma_val_of_from(b);
    assert(b & 0xff == b) by (bit_vector);
}

/// A byte-wide register is the byte itself, both ways.
pub proof fn narrow_register_is_identity(b: u8)
    ensures
        b.spec_val() == b,
        <u8 as Register>::spec_from(b).spec_val() == b,
{
}

/// Whether the `k`-th status read of a polled pass `t` (its accesses at even
/// positions) returned `answers[k]`, for each poll the pass made.
pub open spec fn polls_answered(t: Seq<Access>, answers: Seq<u8>) -> bool {
    forall|k: int|
        0 <= k < answers.len() && 2 * k < t.len() ==> (t[2 * k] matches Access::Read { value, .. }
            && value == #[trigger] answers[k])
}

/// A receive pass into a destination of `len` bytes, against a receiver whose
/// status answers report data ready for exactly the first `n` polls
/// (`n <= len`), takes exactly `n` bytes, each the one the data register
/// returned; with `n == 0` it takes nothing.
pub proof fn received_count_is_ready_prefix(
    t: Seq<Access>,
    lsr_at: usize,
    rbr_at: usize,
    data: Seq<u8>,
    len: nat,
    answers: Seq<u8>,
    n: nat,
)
    requires
        data.len() <= len,
        polled_receive(t, lsr_at, rbr_at, data, data.len() == len),
        polls_answered(t, answers),
        n <= len,
        n < answers.len(),
        forall|k: int| 0 <= k < n ==> #[trigger] answers[k] & 0x01 != 0,
        answers[n as int] & 0x01 == 0,
    ensures
        data.len() == n,
        forall|i: int|
            0 <= i < n ==> t[2 * i + 1] == (Access::Read { offset: rbr_at, value: #[trigger] data[i] }),
{
    if data.len() > n {
        let m = n as int;
        let _ = data[m];
        assert(status_poll(t[2 * m], lsr_at, 0x01, true));
        assert(t[2 * m] matches Access::Read { value, .. } && value == answers[m]);
    } else if data.len() < n {
        let m = data.len() as int;
        assert(answers[m] & 0x01 != 0);
        assert(status_poll(t[2 * m], lsr_at, 0x01, false));
        assert(t[2 * m] matches Access::Read { value, .. } && value == answers[m]);
    }
}

/// A transmit pass over a source of `len` bytes, against a transmitter whose
/// status answers report the FIFO empty for exactly the first `k` polls
/// (`k <= len`), writes exactly the first `k` bytes of the source, in order.
pub proof fn transmitted_count_is_ready_prefix(
    t: Seq<Access>,
    lsr_at: usize,
    thr_at: usize,
    src: Seq<u8>,
    count: nat,
    answers: Seq<u8>,
    k: nat,
)
    requires
        count <= src.len(),
        polled_transmit(t, lsr_at, thr_at, src.subrange(0, count as int), count == src.len()),
        polls_answered(t, answers),
        k <= src.len(),
        k < answers.len(),
        forall|j: int| 0 <= j < k ==> #[trigger] answers[j] & 0x20 != 0,
        answers[k as int] & 0x20 == 0,
    ensures
        count == k,
        forall|i: int|
            0 <= i < k ==> t[2 * i + 1] == (Access::Write { offset: thr_at, value: #[trigger] src[i] }),
{
    let data = src.subrange(0, count as int);
    if count > k {
        let m = k as int;
        let _ = data[m];
        assert(status_poll(t[2 * m], lsr_at, 0x20, true));
        assert(t[2 * m] matches Access::Read { value, .. } && value == answers[m]);
    } else if count < k {
        let m = count as int;
        assert(answers[m] & 0x20 != 0);
        assert(status_poll(t[2 * m], lsr_at, 0x20, false));
        assert(t[2 * m] matches Access::Read { value, .. } && value == answers[m]);
    }
    assert forall|i: int| 0 <= i < k implies t[2 * i + 1] == (Access::Write {
        offset: thr_at,
        value: #[trigger] src[i],
    }) by {
        assert(data[i] == src[i]);
    }
}

} // verus!
