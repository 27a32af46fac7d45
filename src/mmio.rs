use vstd::prelude::*;

verus! {

/// Peripheral base of the BCM2836 and BCM2837, and the fallback for any
/// processor not recognised.
pub const BASE_BCM2837: usize = 0x3F00_0000;

/// Peripheral base of the BCM2711.
pub const BASE_BCM2711: usize = 0xFE00_0000;

/// Part number of the Cortex-A7.
pub const PART_CORTEX_A7: u32 = 0xC07;

/// Part number of the Cortex-A53.
pub const PART_CORTEX_A53: u32 = 0xD03;

/// Part number of the Cortex-A72.
pub const PART_CORTEX_A72: u32 = 0xD08;

/// Size of the peripheral window; every register offset lies below it.
pub const MMIO_WINDOW: usize = 0x0100_0000;

/// The part-number field (bits 4..=15) of a main ID register value.
pub open spec fn part_number(midr: u32) -> u32 {
    (midr >> 4u32) & 0xFFF
}

/// The peripheral base for a processor part number: the Cortex-A72 boards
/// map it at [`BASE_BCM2711`]; the Cortex-A7 and Cortex-A53 boards, and
/// every part not known here, at [`BASE_BCM2837`].
pub open spec fn base_for_part(part: u32) -> usize {
    if part == PART_CORTEX_A7 {
        BASE_BCM2837
    } else if part == PART_CORTEX_A53 {
        BASE_BCM2837
    } else if part == PART_CORTEX_A72 {
        BASE_BCM2711
    } else {
        BASE_BCM2837
    }
}

/// The physical address the peripheral registers are mapped at.
#[derive(Clone, Copy, Debug, PartialEq, Eq, Structural)]
pub struct PlatformBase {
    addr: usize,
}

impl PlatformBase {
    pub closed spec fn spec_addr(self) -> usize {
        self.addr
    }

    /// A base is one of the two known peripheral windows.
    pub open spec fn wf(self) -> bool {
        self.spec_addr() == BASE_BCM2837 || self.spec_addr() == BASE_BCM2711
    }

    pub fn addr(&self) -> (r: usize)
        ensures
            r == self.spec_addr(),
    {
        self.addr
    }
}

/// Picks the peripheral base from the value of the main ID register.
pub fn resolve_platform(midr: u32) -> (r: PlatformBase)
    ensures
        r.spec_addr() == base_for_part(part_number(midr)),
        r.wf(),
        r.spec_addr() != 0,
{
    let part = (midr >> 4) & 0xFFF;
    let addr = if part == PART_CORTEX_A7 {
        BASE_BCM2837
    } else if part == PART_CORTEX_A53 {
        BASE_BCM2837
    } else if part == PART_CORTEX_A72 {
        BASE_BCM2711
    } else {
        BASE_BCM2837
    };
    PlatformBase { addr }
}

/// A 32-bit register at a fixed offset from the peripheral base.
#[derive(Clone, Copy, Debug, PartialEq, Eq, Structural)]
pub struct MmioReg {
    v: usize,
}

impl MmioReg {
    pub closed spec fn spec_offset(self) -> usize {
        self.v
    }

    pub fn new(offset: usize) -> (r: Self)
        requires
            offset < MMIO_WINDOW,
        ensures
            r.spec_offset() == offset,
    {
        MmioReg { v: offset }
    }

    pub fn offset(&self) -> (r: usize)
        ensures
            r == self.spec_offset(),
    {
        self.v
    }

    /// The register's physical address on the platform at `base`.
    pub fn address(&self, base: &PlatformBase) -> (r: usize)
        requires
            self.spec_offset() < MMIO_WINDOW,
            base.wf(),
        ensures
            r == base.spec_addr() + self.spec_offset(),
    {
        base.addr() + self.v
    }
}

/// `current` with the bits of `clear` taken out and those of `set` put in.
pub open spec fn modified(current: u32, clear: u32, set: u32) -> u32 {
    (current & !clear) | set
}

/// One register access, as the hardware is to see it.
#[derive(Clone, Copy, Debug, PartialEq, Eq, Structural)]
pub enum RegOp {
    /// Store `value` at `addr`.
    Write { addr: usize, value: u32 },
    /// Read `addr` and store back the value with `clear` taken out and
    /// `set` put in.
    Modify { addr: usize, clear: u32, set: u32 },
    /// Read `addr` until one of the bits of `mask` is set.
    WaitSet { addr: usize, mask: u32 },
    /// Read `addr` until every bit of `mask` is clear.
    WaitClear { addr: usize, mask: u32 },
    /// Spin for `cycles` idle cycles.
    Delay { cycles: u32 },
    /// Wait `us` microseconds on the system timer.
    DelayMicros { us: u32 },
    /// Read `addr`; when any bit of `mask` is set, leave out the next
    /// `count` operations.
    SkipIfSet { addr: usize, mask: u32, count: usize },
}

impl RegOp {
    /// For a read-modify-write, the value to store back after `current`
    /// was read; any other operation stores nothing and gives `current`.
    pub fn next_value(&self, current: u32) -> (r: u32)
        ensures
            match *self {
                RegOp::Modify { addr, clear, set } => r == modified(current, clear, set),
                _ => r == current,
            },
    {
        match *self {
            RegOp::Modify { clear, set, .. } => (current & !clear) | set,
            _ => current,
        }
    }

    /// For a wait, whether the value `observed` ends it; every other
    /// operation is over after its one access.
    pub fn wait_over(&self, observed: u32) -> (r: bool)
        ensures
            match *self {
                RegOp::WaitSet { addr, mask } => r == (observed & mask != 0),
                RegOp::WaitClear { addr, mask } => r == (observed & mask == 0),
                _ => r,
            },
    {
        match *self {
            RegOp::WaitSet { mask, .. } => observed & mask != 0,
            RegOp::WaitClear { mask, .. } => observed & mask == 0,
            _ => true,
        }
    }

    /// How many of the following operations the value `observed` leaves
    /// out; only a conditional skip leaves any out.
    pub fn skip_count(&self, observed: u32) -> (r: usize)
        ensures
            match *self {
                RegOp::SkipIfSet { addr, mask, count } => r == if observed & mask != 0 {
                    count
                } else {
                    0
                },
                _ => r == 0,
            },
    {
        match *self {
            RegOp::SkipIfSet { mask, count, .. } => if observed & mask != 0 {
                count
            } else {
                0
            },
            _ => 0,
        }
    }
}

/// Ticks of the 24 MHz system timer per microsecond.
pub const TIMER_TICKS_PER_US: u64 = 24;

/// The timer value a delay of `us` microseconds started at `now` runs to.
pub fn delay_deadline(now: u64, us: u32) -> (r: u64)
    requires
        now + us * TIMER_TICKS_PER_US <= u64::MAX,
    ensures
        r == now + us * TIMER_TICKS_PER_US,
{
    now + us as u64 * TIMER_TICKS_PER_US
}

/// A delay running to `deadline` is over once the timer has passed it.
pub fn delay_elapsed(deadline: u64, now: u64) -> (r: bool)
    ensures
        r == (now > deadline),
{
    now > deadline
}

} // verus!
