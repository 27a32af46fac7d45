use vstd::prelude::*;
use crate::clk::{clk_enable_module_uart, D1_CCU_BASE, CCU_UART_BGR_REG};
use crate::mmio::RegOp;
use crate::serial::{ns16550_init_ops, divisor_of, RegWidth, NS16550};

verus! {

/// Configuration register of GPIO port F, pins 0 to 7.
pub const PF_CFG0: usize = 0x0200_00F0;

/// Configuration register of GPIO port B, pins 8 to 15.
pub const PB_CFG1: usize = 0x0200_0034;

/// Base of UART0.
pub const UART0_BASE: usize = 0x0250_0000;

/// Input clock of UART0, in Hz.
pub const UART0_CLOCK: u32 = 24_000_000;

/// Line speed of the console.
pub const CONSOLE_BAUD: u32 = 115_200;

/// The read-modify-write that gives `pin` the function `function` in the
/// configuration register at `addr`, which holds eight pins of four bits.
pub open spec fn pin_config_op(addr: usize, pin: u32, function: u32) -> RegOp {
    RegOp::Modify {
        addr,
        clear: 0xFu32 << ((pin & 7) << 2u32),
        set: (function & 0xF) << ((pin & 7) << 2u32),
    }
}

pub fn pin_config(addr: usize, pin: u32, function: u32) -> (r: RegOp)
    ensures
        r == pin_config_op(addr, pin, function),
{
    let shift = (pin & 7) << 2;
    assert((pin & 7) << 2u32 <= 28) by (bit_vector);
    RegOp::Modify { addr, clear: 0xFu32 << shift, set: (function & 0xF) << shift }
}

/// Pins F0, F1, F3 and F5 to their JTAG function.
pub open spec fn jtag_ops() -> Seq<RegOp> {
    seq![
        pin_config_op(PF_CFG0, 0, 4),
        pin_config_op(PF_CFG0, 1, 4),
        pin_config_op(PF_CFG0, 3, 4),
        pin_config_op(PF_CFG0, 5, 4),
    ]
}

pub fn init_jtag() -> (r: Vec<RegOp>)
    ensures
        r@ =~= jtag_ops(),
{
    let mut ops: Vec<RegOp> = Vec::new();
    ops.push(pin_config(PF_CFG0, 0, 4));
    ops.push(pin_config(PF_CFG0, 1, 4));
    ops.push(pin_config(PF_CFG0, 3, 4));
    ops.push(pin_config(PF_CFG0, 5, 4));
    ops
}

/// The console UART's bring-up: pins B8 and B9 to transmit and receive of
/// UART0, its clock gate opened and its reset released, then the
/// controller itself at the console speed.
pub open spec fn console_uart_ops() -> Seq<RegOp> {
    seq![
        pin_config_op(PB_CFG1, 8, 6),
        pin_config_op(PB_CFG1, 9, 6),
        RegOp::Modify { addr: (D1_CCU_BASE + CCU_UART_BGR_REG) as usize, clear: 0, set: 1 },
        RegOp::Modify {
            addr: (D1_CCU_BASE + CCU_UART_BGR_REG) as usize,
            clear: 0,
            set: 1u32 << 16u32,
        },
    ] + ns16550_init_ops(UART0_BASE, 4, divisor_of(UART0_CLOCK, CONSOLE_BAUD))
}

/// The console UART, with its registers one word apart.
pub fn console_uart() -> (r: NS16550)
    ensures
        r.wf(),
        r.spec_base() == UART0_BASE,
        r.spec_stride() == 4,
{
    NS16550::new(UART0_BASE, RegWidth::Word)
}

pub fn init_uart() -> (r: Vec<RegOp>)
    ensures
        r@ =~= console_uart_ops(),
{
    let mut ops: Vec<RegOp> = Vec::new();
    ops.push(pin_config(PB_CFG1, 8, 6));
    ops.push(pin_config(PB_CFG1, 9, 6));
    let mut gate = clk_enable_module_uart(D1_CCU_BASE + CCU_UART_BGR_REG, 0);
    assert(1u32 << 0u8 == 1 && 1u32 << 16u32 == 0x10000) by (bit_vector);
    ops.append(&mut gate);
    let uart = console_uart();
    let mut init = uart.init(UART0_CLOCK, CONSOLE_BAUD);
    ops.append(&mut init);
    ops
}

} // verus!
