use vstd::prelude::*;
use vstd::string::StringSliceAdditionalSpecFns;
use crate::gpio::{select_function, select_function_op, ALT5, GPFSEL1, GPPUD, GPPUDCLK0};
use crate::mmio::{PlatformBase, RegOp};

verus! {

/// The bytes put on the line for `s`: a carriage return goes out before
/// every line feed, and every other byte as it is.
pub open spec fn crlf(s: Seq<u8>) -> Seq<u8>
    decreases s.len(),
{
    if s.len() == 0 {
        Seq::empty()
    } else if s.last() == 10u8 {
        crlf(s.drop_last()) + seq![13u8, 10u8]
    } else {
        crlf(s.drop_last()).push(s.last())
    }
}

/// `t` with the carriage return taken out of every carriage-return,
/// line-feed pair.
pub open spec fn strip_cr(t: Seq<u8>) -> Seq<u8>
    decreases t.len(),
{
    if t.len() >= 2 && t.last() == 10u8 && t[t.len() - 2] == 13u8 {
        strip_cr(t.take(t.len() - 2)).push(10u8)
    } else if t.len() > 0 {
        strip_cr(t.drop_last()).push(t.last())
    } else {
        Seq::empty()
    }
}

/// Line-ending conversion: every line feed that goes on the line comes
/// right after a carriage return, and taking those carriage returns out
/// gives back exactly the bytes that were written.
pub proof fn lemma_crlf_round_trip(s: Seq<u8>)
    ensures
        strip_cr(crlf(s)) == s,
        forall|i: int|
            0 <= i < crlf(s).len() && #[trigger] crlf(s)[i] == 10u8 ==> i > 0 && crlf(s)[i - 1]
                == 13u8,
    decreases s.len(),
{
    if s.len() > 0 {
        let p = s.drop_last();
        lemma_crlf_round_trip(p);
        let t = crlf(s);
        if s.last() == 10u8 {
            assert(t.take(t.len() - 2) =~= crlf(p));
        } else {
            assert(t.drop_last() =~= crlf(p));
        }
        assert(p.push(s.last()) =~= s);
    }
}

/// The register program that sends `bytes` one at a time: wait with `ready`
/// until the transmitter takes a byte, then store it at `data`.
pub open spec fn tx_ops(ready: RegOp, data: usize, bytes: Seq<u8>) -> Seq<RegOp> {
    Seq::new(
        2 * bytes.len(),
        |i: int|
            if i % 2 == 0 {
                ready
            } else {
                RegOp::Write { addr: data, value: bytes[i / 2] as u32 }
            },
    )
}

/// The bytes of `s` as they go on the line, a carriage return before each line feed.
pub fn line_bytes(s: &str) -> (r: Vec<u8>)
    ensures
        r@ == crlf(s.spec_bytes()),
{
    let b = s.as_bytes();
    let mut out: Vec<u8> = Vec::new();
    let mut i: usize = 0;
    while i < b.len()
        invariant
            i <= b@.len(),
            b@ == s.spec_bytes(),
            out@ == crlf(b@.subrange(0, i as int)),
        decreases b@.len() - i,
    {
        let c = b[i];
        assert(b@.subrange(0, i + 1).drop_last() =~= b@.subrange(0, i as int));
        if c == 10u8 {
            out.push(13u8);
            out.push(10u8);
            assert(out@ =~= crlf(b@.subrange(0, i + 1)));
        } else {
            out.push(c);
        }
        i = i + 1;
    }
    assert(b@.subrange(0, b@.len() as int) =~= b@);
    out
}

/// Builds the transmit program for `bytes`.
fn tx_program(ready: RegOp, data: usize, bytes: &Vec<u8>) -> (r: Vec<RegOp>)
    requires
        bytes@.len() <= usize::MAX / 2,
    ensures
        r@ =~= tx_ops(ready, data, bytes@),
{
    let mut ops: Vec<RegOp> = Vec::new();
    let mut i: usize = 0;
    while i < bytes.len()
        invariant
            i <= bytes@.len(),
            bytes@.len() <= usize::MAX / 2,
            ops@ =~= tx_ops(ready, data, bytes@.subrange(0, i as int)),
        decreases bytes@.len() - i,
    {
        ops.push(ready);
        ops.push(RegOp::Write { addr: data, value: bytes[i] as u32 });
        i = i + 1;
        assert(ops@ =~= tx_ops(ready, data, bytes@.subrange(0, i as int)));
    }
    assert(bytes@.subrange(0, bytes@.len() as int) =~= bytes@);
    ops
}

/// Offset of the auxiliary peripherals from the peripheral base.
pub const AUX_BASE: usize = 0x21_5000;

/// Auxiliary interrupt status.
pub const AUX_IRQ: usize = AUX_BASE;

/// Auxiliary enables.
pub const AUX_ENABLES: usize = AUX_BASE + 0x4;

/// Mini UART I/O data.
pub const AUX_MU_IO: usize = AUX_BASE + 0x40;

/// Mini UART interrupt enable.
pub const AUX_MU_IER: usize = AUX_BASE + 0x44;

/// Mini UART interrupt identify.
pub const AUX_MU_IIR: usize = AUX_BASE + 0x48;

/// Mini UART line control.
pub const AUX_MU_LCR: usize = AUX_BASE + 0x4C;

/// Mini UART modem control.
pub const AUX_MU_MCR: usize = AUX_BASE + 0x50;

/// Mini UART line status.
pub const AUX_MU_LSR: usize = AUX_BASE + 0x54;

/// Mini UART extra control.
pub const AUX_MU_CNTL: usize = AUX_BASE + 0x60;

/// Mini UART baud rate.
pub const AUX_MU_BAUD: usize = AUX_BASE + 0x68;

/// Mini UART baud-rate register value for 115200 baud off the core clock.
pub const MINI_UART_BAUD_DIVISOR: u32 = 270;

/// Idle cycles to let the pull-up/down control settle.
pub const PULL_SETTLE_CYCLES: u32 = 150;

/// Transmitter-empty bit of the mini UART's line status.
pub const AUX_MU_LSR_TX_EMPTY: u32 = 0x20;

/// The mini UART's bring-up: enable it, set 8-bit mode at the fixed baud
/// rate, route pins 14 and 15 to it (alternate function 5) with pull-up/down
/// disabled, and enable the transmitter and receiver.
pub open spec fn mini_uart_init_ops(b: usize) -> Seq<RegOp> {
    seq![
        RegOp::Modify { addr: (b + AUX_ENABLES) as usize, clear: 0, set: 1 },
        RegOp::Write { addr: (b + AUX_MU_CNTL) as usize, value: 0 },
        RegOp::Write { addr: (b + AUX_MU_LCR) as usize, value: 3 },
        RegOp::Write { addr: (b + AUX_MU_MCR) as usize, value: 0 },
        RegOp::Write { addr: (b + AUX_MU_IER) as usize, value: 0 },
        RegOp::Write { addr: (b + AUX_MU_IIR) as usize, value: 0xC6 },
        RegOp::Write { addr: (b + AUX_MU_BAUD) as usize, value: MINI_UART_BAUD_DIVISOR },
        select_function_op(b, 14, 15, ALT5),
        RegOp::Write { addr: (b + GPPUD) as usize, value: 0 },
        RegOp::Delay { cycles: PULL_SETTLE_CYCLES },
        RegOp::Write { addr: (b + GPPUDCLK0) as usize, value: (1u32 << 14u32) | (1u32 << 15u32) },
        RegOp::Delay { cycles: PULL_SETTLE_CYCLES },
        RegOp::Write { addr: (b + GPPUDCLK0) as usize, value: 0 },
        RegOp::Write { addr: (b + AUX_MU_CNTL) as usize, value: 3 },
    ]
}

/// The auxiliary mini UART.
#[derive(Clone, Copy, Debug, PartialEq, Eq, Structural)]
pub struct Uart {
    base: PlatformBase,
}

impl Uart {
    pub closed spec fn spec_base(self) -> PlatformBase {
        self.base
    }

    pub fn new(base: PlatformBase) -> (r: Self)
        requires
            base.wf(),
        ensures
            r.spec_base() == base,
    {
        Uart { base }
    }

    /// The wait that ends once the transmitter is empty.
    pub open spec fn ready_op(self) -> RegOp {
        RegOp::WaitSet {
            addr: (self.spec_base().spec_addr() + AUX_MU_LSR) as usize,
            mask: AUX_MU_LSR_TX_EMPTY,
        }
    }

    pub open spec fn data_addr(self) -> usize {
        (self.spec_base().spec_addr() + AUX_MU_IO) as usize
    }

    /// The program that brings the mini UART up.
    pub fn init(&self) -> (r: Vec<RegOp>)
        requires
            self.spec_base().wf(),
        ensures
            r@ =~= mini_uart_init_ops(self.spec_base().spec_addr()),
    {
        let b = self.base.addr();
        let mut ops: Vec<RegOp> = Vec::new();
        ops.push(RegOp::Modify { addr: b + AUX_ENABLES, clear: 0, set: 1 });
        ops.push(RegOp::Write { addr: b + AUX_MU_CNTL, value: 0 });
        ops.push(RegOp::Write { addr: b + AUX_MU_LCR, value: 3 });
        ops.push(RegOp::Write { addr: b + AUX_MU_MCR, value: 0 });
        ops.push(RegOp::Write { addr: b + AUX_MU_IER, value: 0 });
        ops.push(RegOp::Write { addr: b + AUX_MU_IIR, value: 0xC6 });
        ops.push(RegOp::Write { addr: b + AUX_MU_BAUD, value: MINI_UART_BAUD_DIVISOR });
        ops.push(select_function(&self.base, 14, 15, ALT5));
        ops.push(RegOp::Write { addr: b + GPPUD, value: 0 });
        ops.push(RegOp::Delay { cycles: PULL_SETTLE_CYCLES });
        ops.push(RegOp::Write { addr: b + GPPUDCLK0, value: (1u32 << 14u32) | (1u32 << 15u32) });
        ops.push(RegOp::Delay { cycles: PULL_SETTLE_CYCLES });
        ops.push(RegOp::Write { addr: b + GPPUDCLK0, value: 0 });
        ops.push(RegOp::Write { addr: b + AUX_MU_CNTL, value: 3 });
        ops
    }

    /// The program that sends one byte.
    pub fn transmit(&self, byte: u8) -> (r: Vec<RegOp>)
        requires
            self.spec_base().wf(),
        ensures
            r@ =~= tx_ops(self.ready_op(), self.data_addr(), seq![byte]),
    {
        let mut bytes: Vec<u8> = Vec::new();
        bytes.push(byte);
        tx_program(
            RegOp::WaitSet { addr: self.base.addr() + AUX_MU_LSR, mask: AUX_MU_LSR_TX_EMPTY },
            self.base.addr() + AUX_MU_IO,
            &bytes,
        )
    }

    /// The program that sends `s`, with a carriage return before each line
    /// feed.
    pub fn write_str(&self, s: &str) -> (r: Vec<RegOp>)
        requires
            self.spec_base().wf(),
            s.spec_bytes().len() <= usize::MAX / 4,
        ensures
            r@ =~= tx_ops(self.ready_op(), self.data_addr(), crlf(s.spec_bytes())),
    {
        let bytes = line_bytes(s);
        proof {
            lemma_crlf_len(s.spec_bytes());
        }
        tx_program(
            RegOp::WaitSet { addr: self.base.addr() + AUX_MU_LSR, mask: AUX_MU_LSR_TX_EMPTY },
            self.base.addr() + AUX_MU_IO,
            &bytes,
        )
    }
}

/// Inserting carriage returns at most doubles the length.
proof fn lemma_crlf_len(s: Seq<u8>)
    ensures
        crlf(s).len() <= 2 * s.len(),
    decreases s.len(),
{
    if s.len() > 0 {
        lemma_crlf_len(s.drop_last());
    }
}

/// Offset of the PL011 UART from the peripheral base.
pub const PL011_BASE: usize = 0x20_1000;

/// PL011 data register.
pub const PL011_DR: usize = PL011_BASE;

/// PL011 flag register.
pub const PL011_FR: usize = PL011_BASE + 0x18;

/// Transmit-FIFO-full bit of the PL011 flag register.
pub const PL011_FR_TXFF: u32 = 0x20;

/// The full PL011 UART.
#[derive(Clone, Copy, Debug, PartialEq, Eq, Structural)]
pub struct Pl011 {
    base: PlatformBase,
}

impl Pl011 {
    pub closed spec fn spec_base(self) -> PlatformBase {
        self.base
    }

    pub fn new(base: PlatformBase) -> (r: Self)
        requires
            base.wf(),
        ensures
            r.spec_base() == base,
    {
        Pl011 { base }
    }

    /// The wait that ends once the transmit FIFO has room.
    pub open spec fn ready_op(self) -> RegOp {
        RegOp::WaitClear {
            addr: (self.spec_base().spec_addr() + PL011_FR) as usize,
            mask: PL011_FR_TXFF,
        }
    }

    pub open spec fn data_addr(self) -> usize {
        (self.spec_base().spec_addr() + PL011_DR) as usize
    }

    /// The program that sends one byte.
    pub fn transmit(&self, byte: u8) -> (r: Vec<RegOp>)
        requires
            self.spec_base().wf(),
        ensures
            r@ =~= tx_ops(self.ready_op(), self.data_addr(), seq![byte]),
    {
        let mut bytes: Vec<u8> = Vec::new();
        bytes.push(byte);
        tx_program(
            RegOp::WaitClear { addr: self.base.addr() + PL011_FR, mask: PL011_FR_TXFF },
            self.base.addr() + PL011_DR,
            &bytes,
        )
    }

    /// The program that sends `s`, with a carriage return before each line
    /// feed.
    pub fn write_str(&self, s: &str) -> (r: Vec<RegOp>)
        requires
            self.spec_base().wf(),
            s.spec_bytes().len() <= usize::MAX / 4,
        ensures
            r@ =~= tx_ops(self.ready_op(), self.data_addr(), crlf(s.spec_bytes())),
    {
        let bytes = line_bytes(s);
        proof {
            lemma_crlf_len(s.spec_bytes());
        }
        tx_program(
            RegOp::WaitClear { addr: self.base.addr() + PL011_FR, mask: PL011_FR_TXFF },
            self.base.addr() + PL011_DR,
            &bytes,
        )
    }
}

/// Width of a 16550 register, which sets the stride between registers.
#[derive(Clone, Copy, Debug, PartialEq, Eq, Structural)]
pub enum RegWidth {
    /// Registers one byte apart (port I/O).
    Byte,
    /// Registers one 32-bit word apart (memory-mapped).
    Word,
}

impl RegWidth {
    pub open spec fn spec_stride(self) -> usize {
        match self {
            RegWidth::Byte => 1,
            RegWidth::Word => 4,
        }
    }

    pub fn stride(self) -> (r: usize)
        ensures
            r == self.spec_stride(),
    {
        match self {
            RegWidth::Byte => 1,
            RegWidth::Word => 4,
        }
    }
}

/// Transmit holding register (write) and divisor latch low (with DLAB).
pub const NS16550_THR: usize = 0;

/// Divisor latch high (with DLAB), interrupt enable otherwise.
pub const NS16550_IER: usize = 1;

/// FIFO control.
pub const NS16550_FCR: usize = 2;

/// Line control.
pub const NS16550_LCR: usize = 3;

/// Line status.
pub const NS16550_LSR: usize = 5;

/// FIFO enable, receive FIFO reset and transmit FIFO reset.
pub const FCR_DEFAULT_VAL: u32 = 0b111;

/// Word length select bits: 8 data bits, 1 stop bit, no parity.
pub const LCR_8N1: u32 = 0b11;

/// Divisor latch access bit.
pub const LCR_DLAB: u32 = 0x80;

/// Transmitter holding register empty.
pub const LSR_THRE: u32 = 0x20;

/// The baud-rate divisor: `clock / (16 * baud_rate)`, rounded down, kept to
/// 16 bits.
pub open spec fn divisor_of(clock: u32, baud_rate: u32) -> u16 {
    ((clock as int / (16 * baud_rate as int)) % 0x10000) as u16
}

/// The 16550's bring-up: FIFOs on and reset, 8N1, no interrupts, then the
/// divisor through the divisor latch.
pub open spec fn ns16550_init_ops(base: usize, stride: usize, divisor: u16) -> Seq<RegOp> {
    seq![
        RegOp::Write { addr: (base + NS16550_FCR * stride) as usize, value: FCR_DEFAULT_VAL },
        RegOp::Write { addr: (base + NS16550_LCR * stride) as usize, value: LCR_8N1 },
        RegOp::Write { addr: (base + NS16550_IER * stride) as usize, value: 0 },
        RegOp::Modify { addr: (base + NS16550_LCR * stride) as usize, clear: 0, set: LCR_DLAB },
        RegOp::Write { addr: (base + NS16550_THR * stride) as usize, value: (divisor % 0x100) as u32 },
        RegOp::Write { addr: (base + NS16550_IER * stride) as usize, value: (divisor / 0x100) as u32 },
        RegOp::Modify { addr: (base + NS16550_LCR * stride) as usize, clear: LCR_DLAB, set: 0 },
    ]
}

/// A 16550-family UART whose registers start at `base`.
#[derive(Clone, Copy, Debug, PartialEq, Eq, Structural)]
pub struct NS16550 {
    base: usize,
    stride: usize,
}

impl NS16550 {
    pub closed spec fn spec_base(self) -> usize {
        self.base
    }

    pub closed spec fn spec_stride(self) -> usize {
        self.stride
    }

    /// A controller fits below the top of the address space.
    pub open spec fn wf(self) -> bool {
        &&& self.spec_stride() == 1 || self.spec_stride() == 4
        &&& self.spec_base() + 8 * self.spec_stride() <= usize::MAX
    }

    pub open spec fn reg(self, index: usize) -> usize {
        (self.spec_base() + index * self.spec_stride()) as usize
    }

    pub fn new(base: usize, width: RegWidth) -> (r: Self)
        requires
            base + 8 * width.spec_stride() <= usize::MAX,
        ensures
            r.spec_base() == base,
            r.spec_stride() == width.spec_stride(),
            r.wf(),
    {
        NS16550 { base, stride: width.stride() }
    }

    pub fn calc_divisor(clock: u32, baud_rate: u32) -> (r: u16)
        requires
            baud_rate > 0,
            16 * baud_rate <= u32::MAX,
        ensures
            r == divisor_of(clock, baud_rate),
            clock as int / (16 * baud_rate as int) < 0x10000 ==> r as int == clock as int / (16
                * baud_rate as int),
    {
        let q = clock / (16 * baud_rate);
        assert(q as u16 == (q % 0x10000) as u16) by (bit_vector);
        q as u16
    }

    /// The program that brings the controller up at `baud_rate` off a
    /// `clock` Hz input clock.
    pub fn init(&self, clock: u32, baud_rate: u32) -> (r: Vec<RegOp>)
        requires
            self.wf(),
            baud_rate > 0,
            16 * baud_rate <= u32::MAX,
        ensures
            r@ =~= ns16550_init_ops(
                self.spec_base(),
                self.spec_stride(),
                divisor_of(clock, baud_rate),
            ),
    {
        let divisor = NS16550::calc_divisor(clock, baud_rate);
        let b = self.base;
        let st = self.stride;
        let mut ops: Vec<RegOp> = Vec::new();
        ops.push(RegOp::Write { addr: b + NS16550_FCR * st, value: FCR_DEFAULT_VAL });
        ops.push(RegOp::Write { addr: b + NS16550_LCR * st, value: LCR_8N1 });
        ops.push(RegOp::Write { addr: b + NS16550_IER * st, value: 0 });
        ops.push(RegOp::Modify { addr: b + NS16550_LCR * st, clear: 0, set: LCR_DLAB });
        ops.push(RegOp::Write { addr: b + NS16550_THR * st, value: (divisor % 0x100) as u32 });
        ops.push(RegOp::Write { addr: b + NS16550_IER * st, value: (divisor / 0x100) as u32 });
        ops.push(RegOp::Modify { addr: b + NS16550_LCR * st, clear: LCR_DLAB, set: 0 });
        ops
    }

    /// The wait that ends once the transmit holding register is empty.
    pub open spec fn ready_op(self) -> RegOp {
        RegOp::WaitSet { addr: self.reg(NS16550_LSR), mask: LSR_THRE }
    }

    pub open spec fn data_addr(self) -> usize {
        self.reg(NS16550_THR)
    }

    /// The program that sends one byte.
    pub fn transmit(&self, byte: u8) -> (r: Vec<RegOp>)
        requires
            self.wf(),
        ensures
            r@ =~= tx_ops(self.ready_op(), self.data_addr(), seq![byte]),
    {
        let mut bytes: Vec<u8> = Vec::new();
        bytes.push(byte);
        tx_program(
            RegOp::WaitSet { addr: self.base + NS16550_LSR * self.stride, mask: LSR_THRE },
            self.base + NS16550_THR * self.stride,
            &bytes,
        )
    }

    /// The program that sends `s`, with a carriage return before each line
    /// feed.
    pub fn write_str(&self, s: &str) -> (r: Vec<RegOp>)
        requires
            self.wf(),
            s.spec_bytes().len() <= usize::MAX / 4,
        ensures
            r@ =~= tx_ops(self.ready_op(), self.data_addr(), crlf(s.spec_bytes())),
    {
        let bytes = line_bytes(s);
        proof {
            lemma_crlf_len(s.spec_bytes());
        }
        tx_program(
            RegOp::WaitSet { addr: self.base + NS16550_LSR * self.stride, mask: LSR_THRE },
            self.base + NS16550_THR * self.stride,
            &bytes,
        )
    }
}

} // verus!
