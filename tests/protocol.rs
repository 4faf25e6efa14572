use std::cell::RefCell;
use std::collections::VecDeque;
use uart16550::{Register, Uart16550, Uart16550IO};

#[derive(Debug, Clone, Copy, PartialEq, Eq)]
enum Op {
    Read(usize, u32),
    Write(usize, u32),
}

/// A register file that records every access. Line-status reads follow a
/// script (then read as `idle`), data reads pop the receive queue, other
/// registers hold what was last written.
struct Bus {
    width: usize,
    regs: RefCell<[u32; 8]>,
    status: RefCell<VecDeque<u8>>,
    idle: u8,
    rx: RefCell<VecDeque<u8>>,
    log: RefCell<Vec<Op>>,
}

impl Bus {
    fn new(width: usize) -> Bus {
        Bus {
            width,
            regs: RefCell::new([0; 8]),
            status: RefCell::new(VecDeque::new()),
            idle: 0,
            rx: RefCell::new(VecDeque::new()),
            log: RefCell::new(Vec::new()),
        }
    }

    fn with_lcr(self, lcr: u8) -> Bus {
        self.regs.borrow_mut()[3] = lcr as u32;
        self
    }

    fn with_status(mut self, script: &[u8], idle: u8) -> Bus {
        self.status = RefCell::new(script.iter().copied().collect());
        self.idle = idle;
        self
    }

    fn with_rx(self, bytes: &[u8]) -> Bus {
        *self.rx.borrow_mut() = bytes.iter().copied().collect();
        self
    }

    fn raw_read(&self, offset: usize) -> u32 {
        let index = offset / self.width;
        let v = match index {
            5 => self.status.borrow_mut().pop_front().unwrap_or(self.idle) as u32,
            0 => self.rx.borrow_mut().pop_front().unwrap_or(0) as u32,
            i => self.regs.borrow()[i],
        };
        self.log.borrow_mut().push(Op::Read(offset, v));
        v
    }

    fn raw_write(&self, offset: usize, v: u32) {
        self.regs.borrow_mut()[offset / self.width] = v;
        self.log.borrow_mut().push(Op::Write(offset, v));
    }

    fn log(&self) -> Vec<Op> {
        self.log.borrow().clone()
    }

    fn written(&self) -> Vec<u32> {
        self.log
            .borrow()
            .iter()
            .filter_map(|op| match op {
                Op::Write(0, v) => Some(*v),
                _ => None,
            })
            .collect()
    }
}

impl Uart16550IO<u8> for Bus {
    fn read_at(&self, offset: usize) -> u8 {
        self.raw_read(offset) as u8
    }

    fn write_at(&self, offset: usize, value: u8) {
        self.raw_write(offset, value as u32)
    }
}

impl Uart16550IO<u32> for Bus {
    fn read_at(&self, offset: usize) -> u32 {
        self.raw_read(offset)
    }

    fn write_at(&self, offset: usize, value: u32) {
        self.raw_write(offset, value)
    }
}

#[test]
fn write_divisor_narrow_issues_the_latch_sequence() {
    let mut uart = Uart16550::<u8, Bus>::new(Bus::new(1).with_lcr(0x1b));
    uart.write_divisor(12);
    assert_eq!(
        uart.io_region().log(),
        vec![
            Op::Read(3, 0x1b),
            Op::Write(3, 0x9b),
            Op::Write(0, 12 & 0xff),
            Op::Write(1, (12 >> 8) & 0xff),
            Op::Write(3, 0x1b),
        ]
    );
}

#[test]
fn write_divisor_wide_restores_line_control() {
    let mut uart = Uart16550::<u32, Bus>::new(Bus::new(4).with_lcr(0x03));
    uart.write_divisor(0x1234);
    assert_eq!(
        uart.io_region().log(),
        vec![
            Op::Read(12, 0x03),
            Op::Write(12, 0x83),
            Op::Write(0, 0x34),
            Op::Write(4, 0x12),
            Op::Write(12, 0x03),
        ]
    );
    assert_eq!(uart.io_region().regs.borrow()[3], 0x03);
}

#[test]
fn write_divisor_keeps_line_control_for_extreme_divisors() {
    for divisor in [0u16, 1, 0x00ff, 0x0100, 0xffff] {
        for lcr in [0x00u8, 0x80, 0x3f, 0xff] {
            let mut narrow = Uart16550::<u8, Bus>::new(Bus::new(1).with_lcr(lcr));
            narrow.write_divisor(divisor);
            assert_eq!(narrow.io_region().regs.borrow()[3], lcr as u32);
            assert_eq!(narrow.io_region().regs.borrow()[0], (divisor & 0xff) as u32);
            assert_eq!(narrow.io_region().regs.borrow()[1], (divisor >> 8) as u32);

            let mut wide = Uart16550::<u32, Bus>::new(Bus::new(4).with_lcr(lcr));
            wide.write_divisor(divisor);
            assert_eq!(wide.io_region().regs.borrow()[3], lcr as u32);
            assert_eq!(wide.io_region().log().len(), 5);
        }
    }
}

#[test]
fn read_with_no_data_ready_returns_zero() {
    let mut uart = Uart16550::<u8, Bus>::new(Bus::new(1).with_status(&[], 0x60).with_rx(&[7]));
    let mut buf = [0xeeu8; 4];
    assert_eq!(uart.read(&mut buf), 0);
    assert_eq!(buf, [0xee; 4]);
    assert_eq!(uart.io_region().log(), vec![Op::Read(5, 0x60)]);
}

#[test]
fn read_takes_exactly_the_ready_bytes() {
    let bus = Bus::new(1).with_status(&[0x01, 0x61, 0x21], 0x60).with_rx(b"abc");
    let mut uart = Uart16550::<u8, Bus>::new(bus);
    let mut buf = [0xeeu8; 5];
    assert_eq!(uart.read(&mut buf), 3);
    assert_eq!(buf, [b'a', b'b', b'c', 0xee, 0xee]);
    assert_eq!(uart.io_region().log().len(), 7);
}

#[test]
fn read_stops_when_buffer_is_full() {
    let bus = Bus::new(4).with_status(&[0x01; 4], 0x00).with_rx(b"wxyz");
    let mut uart = Uart16550::<u32, Bus>::new(bus);
    let mut buf = [0u8; 2];
    assert_eq!(uart.read(&mut buf), 2);
    assert_eq!(buf, [b'w', b'x']);
    assert_eq!(
        uart.io_region().log(),
        vec![
            Op::Read(20, 0x01),
            Op::Read(0, b'w' as u32),
            Op::Read(20, 0x01),
            Op::Read(0, b'x' as u32),
        ]
    );
}

#[test]
fn read_into_empty_buffer_touches_nothing() {
    let mut uart = Uart16550::<u8, Bus>::new(Bus::new(1).with_status(&[0x01], 0x01));
    let mut buf: [u8; 0] = [];
    assert_eq!(uart.read(&mut buf), 0);
    assert!(uart.io_region().log().is_empty());
}

#[test]
fn write_pushes_while_fifo_is_empty() {
    let bus = Bus::new(1).with_status(&[0x20, 0x60], 0x01);
    let mut uart = Uart16550::<u8, Bus>::new(bus);
    assert_eq!(uart.write(&[1, 2, 3, 4]), 2);
    assert_eq!(uart.io_region().written(), vec![1, 2]);
    assert_eq!(
        uart.io_region().log(),
        vec![
            Op::Read(5, 0x20),
            Op::Write(0, 1),
            Op::Read(5, 0x60),
            Op::Write(0, 2),
            Op::Read(5, 0x01),
        ]
    );
}

#[test]
fn write_drains_whole_buffer_when_fifo_keeps_up() {
    let bus = Bus::new(4).with_status(&[], 0x20);
    let mut uart = Uart16550::<u32, Bus>::new(bus);
    assert_eq!(uart.write(b"hello"), 5);
    assert_eq!(uart.io_region().written(), b"hello".iter().map(|b| *b as u32).collect::<Vec<_>>());
    assert_eq!(uart.io_region().log().len(), 10);
}

#[test]
fn write_with_full_fifo_sends_nothing() {
    let mut uart = Uart16550::<u8, Bus>::new(Bus::new(1).with_status(&[], 0x40));
    assert_eq!(uart.write(&[9, 9]), 0);
    assert_eq!(uart.io_region().log(), vec![Op::Read(5, 0x40)]);
}

fn touched_offsets<R: Register>(width: usize) -> Vec<usize>
where
    Bus: Uart16550IO<R>,
{
    let mut uart = Uart16550::<R, Bus>::new(Bus::new(width));
    let (data, ier, iir, lcr) = (*uart.rbr_thr(), *uart.ier(), *uart.iir_fcr(), *uart.lcr());
    let (mcr, lsr, msr) = (*uart.mcr(), *uart.lsr(), *uart.msr());
    data.rx_data(uart.io_region_mut());
    ier.read(uart.io_region_mut());
    iir.read(uart.io_region_mut());
    lcr.read(uart.io_region_mut());
    mcr.read(uart.io_region_mut());
    lsr.read(uart.io_region_mut());
    msr.read(uart.io_region_mut());
    let log = uart.io_region().log();
    log.iter()
        .map(|op| match op {
            Op::Read(o, _) | Op::Write(o, _) => *o,
        })
        .collect()
}

#[test]
fn block_offsets_follow_the_width() {
    assert_eq!(touched_offsets::<u8>(1), vec![0, 1, 2, 3, 4, 5, 6]);
    assert_eq!(touched_offsets::<u32>(4), vec![0, 4, 8, 12, 16, 20, 24]);
}

#[test]
fn register_width_keeps_the_low_byte() {
    assert_eq!(0x1234_56abu32.val(), 0xab);
    assert_eq!(0xffff_ff00u32.val(), 0x00);
    assert_eq!(<u32 as Register>::from_byte(0x7f).val(), 0x7f);
    assert_eq!(<u32 as Register>::from_byte(0xff), 0xff);
    for x in 0..=255u8 {
        assert_eq!(<u8 as Register>::from_byte(x).val(), x);
        assert_eq!(<u32 as Register>::from_byte(x).val(), x);
        assert_eq!((x as u32 | 0xabcd_0000).val(), x);
    }
}

struct Shared(&'static Bus);

impl Uart16550IO<u8> for Shared {
    fn read_at(&self, offset: usize) -> u8 {
        self.0.raw_read(offset) as u8
    }

    fn write_at(&self, offset: usize, value: u8) {
        self.0.raw_write(offset, value as u32)
    }
}

#[test]
fn boxed_binding_forwards_accesses() {
    let bus: &'static Bus = Box::leak(Box::new(Bus::new(1).with_lcr(0x07)));
    let boxed: Box<dyn Uart16550IO<u8>> = Box::new(Shared(bus));
    let mut uart = Uart16550::<u8, Box<dyn Uart16550IO<u8>>>::new(boxed);
    uart.write_divisor(0x0201);
    assert_eq!(
        bus.log(),
        vec![
            Op::Read(3, 0x07),
            Op::Write(3, 0x87),
            Op::Write(0, 0x01),
            Op::Write(1, 0x02),
            Op::Write(3, 0x07),
        ]
    );
}
