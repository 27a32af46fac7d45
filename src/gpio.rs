use vstd::prelude::*;
use crate::mmio::{PlatformBase, RegOp};

verus! {

/// Offset of the GPIO block from the peripheral base.
pub const GPIO_BASE: usize = 0x20_0000;

/// Function select for pins 10 to 19.
pub const GPFSEL1: usize = GPIO_BASE + 0x04;

/// Controls actuation of pull up/down to all GPIO pins.
pub const GPPUD: usize = GPIO_BASE + 0x94;

/// Controls actuation of pull up/down for pins 0 to 31.
pub const GPPUDCLK0: usize = GPIO_BASE + 0x98;

/// Number of GPIO pins.
pub const GPIO_PINS: u32 = 54;

/// Function-select code of alternate function 5.
pub const ALT5: u32 = 0b010;

/// Offset of the function-select register that holds `pin`.
pub open spec fn fsel_offset(pin: u32) -> usize {
    (GPIO_BASE + 4 * (pin / 10)) as usize
}

/// Position of `pin`'s three-bit field in its function-select register.
pub open spec fn fsel_shift(pin: u32) -> u32 {
    (3 * (pin % 10)) as u32
}

/// The read-modify-write that puts two pins of one function-select
/// register into `function`, leaving the other pins of that register alone.
pub open spec fn select_function_op(base: usize, pin_a: u32, pin_b: u32, function: u32) -> RegOp {
    RegOp::Modify {
        addr: (base + fsel_offset(pin_a)) as usize,
        clear: (7u32 << fsel_shift(pin_a)) | (7u32 << fsel_shift(pin_b)),
        set: (function << fsel_shift(pin_a)) | (function << fsel_shift(pin_b)),
    }
}

/// Sets the function of two pins that share a function-select register.
pub fn select_function(base: &PlatformBase, pin_a: u32, pin_b: u32, function: u32) -> (r: RegOp)
    requires
        base.wf(),
        pin_a < GPIO_PINS,
        pin_b < GPIO_PINS,
        pin_a / 10 == pin_b / 10,
        function <= 7,
    ensures
        r == select_function_op(base.spec_addr(), pin_a, pin_b, function),
{
    let shift_a = 3 * (pin_a % 10);
    let shift_b = 3 * (pin_b % 10);
    let offset = GPIO_BASE + 4 * (pin_a / 10) as usize;
    RegOp::Modify {
        addr: base.addr() + offset,
        clear: (7u32 << shift_a) | (7u32 << shift_b),
        set: (function << shift_a) | (function << shift_b),
    }
}

} // verus!
