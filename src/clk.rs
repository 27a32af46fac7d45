use vstd::prelude::*;
use crate::mmio::RegOp;

verus! {

/// Base of the D1 clock control unit.
pub const D1_CCU_BASE: usize = 0x0200_1000;

pub const CCU_PLL_CPU_CTRL_REG: usize = 0x000;

pub const CCU_PLL_PERI0_CTRL_REG: usize = 0x020;

pub const CCU_PLL_VIDEO0_CTRL_REG: usize = 0x040;

pub const CCU_PLL_VIDEO1_CTRL_REG: usize = 0x048;

pub const CCU_PLL_VE_CTRL: usize = 0x058;

pub const CCU_PLL_AUDIO0_CTRL_REG: usize = 0x078;

pub const CCU_PLL_AUDIO1_CTRL_REG: usize = 0x080;

pub const CCU_PSI_CLK_REG: usize = 0x510;

pub const CCU_APB0_CLK_REG: usize = 0x520;

pub const CCU_MBUS_CLK_REG: usize = 0x540;

pub const CCU_DMA_BGR_REG: usize = 0x70C;

pub const CCU_UART_BGR_REG: usize = 0x90C;

pub const CCU_RISCV_CLK_REG: usize = 0xD00;

/// PLL enable.
pub const PLL_ENABLE: u32 = 1u32 << 31u32;

/// PLL LDO enable.
pub const PLL_LDO_ENABLE: u32 = 1u32 << 30u32;

/// PLL lock enable.
pub const PLL_LOCK_ENABLE: u32 = 1u32 << 29u32;

/// PLL lock status.
pub const PLL_LOCKED: u32 = 1u32 << 28u32;

/// PLL output gate.
pub const PLL_OUTPUT_GATE: u32 = 1u32 << 27u32;

pub open spec fn ccu(offset: usize) -> usize {
    (D1_CCU_BASE + offset) as usize
}

/// The CPU PLL at 1008 MHz, with the CPU clock moved off the 24 MHz
/// oscillator onto it once it has locked.
pub open spec fn pll_cpux_axi_ops() -> Seq<RegOp> {
    let cpu = ccu(CCU_PLL_CPU_CTRL_REG);
    let riscv = ccu(CCU_RISCV_CLK_REG);
    seq![
        RegOp::Write { addr: riscv, value: (3u32 << 8u32) | 1 },
        RegOp::DelayMicros { us: 1 },
        RegOp::Modify { addr: cpu, clear: PLL_OUTPUT_GATE, set: 0 },
        RegOp::Modify { addr: cpu, clear: 0, set: PLL_LDO_ENABLE },
        RegOp::DelayMicros { us: 5 },
        RegOp::Modify {
            addr: cpu,
            clear: (3u32 << 16u32) | (0xFFu32 << 8u32) | 3,
            set: 41u32 << 8u32,
        },
        RegOp::Modify { addr: cpu, clear: 0, set: PLL_LOCK_ENABLE },
        RegOp::Modify { addr: cpu, clear: 0, set: PLL_ENABLE },
        RegOp::WaitSet { addr: cpu, mask: PLL_LOCKED },
        RegOp::DelayMicros { us: 20 },
        RegOp::Modify { addr: cpu, clear: 0, set: PLL_OUTPUT_GATE },
        RegOp::Modify { addr: cpu, clear: PLL_LOCK_ENABLE, set: 0 },
        RegOp::DelayMicros { us: 1 },
        RegOp::Modify {
            addr: riscv,
            clear: (7u32 << 24u32) | (3u32 << 8u32) | 0xF,
            set: (5u32 << 24u32) | (1u32 << 8u32),
        },
        RegOp::DelayMicros { us: 1 },
    ]
}

/// Peripheral PLL 0 (600 MHz), unless it already runs.
pub open spec fn pll_periph0_ops() -> Seq<RegOp> {
    let peri0 = ccu(CCU_PLL_PERI0_CTRL_REG);
    seq![
        RegOp::SkipIfSet { addr: peri0, mask: PLL_ENABLE, count: 7 },
        RegOp::Modify { addr: ccu(CCU_PSI_CLK_REG), clear: 3u32 << 24u32, set: 0 },
        RegOp::Write { addr: peri0, value: 0x63u32 << 8u32 },
        RegOp::Modify { addr: peri0, clear: 0, set: PLL_LOCK_ENABLE },
        RegOp::Modify { addr: peri0, clear: 0, set: PLL_ENABLE },
        RegOp::WaitSet { addr: peri0, mask: PLL_LOCKED },
        RegOp::DelayMicros { us: 20 },
        RegOp::Modify { addr: peri0, clear: PLL_LOCK_ENABLE, set: 0 },
    ]
}

/// The AHB clock: divide by 3 and select peripheral PLL 0.
pub open spec fn ahb_ops() -> Seq<RegOp> {
    seq![
        RegOp::Write { addr: ccu(CCU_PSI_CLK_REG), value: 2 },
        RegOp::Modify { addr: ccu(CCU_PSI_CLK_REG), clear: 0, set: 3u32 << 24u32 },
        RegOp::DelayMicros { us: 1 },
    ]
}

/// The APB0 clock: divide by 3, pre-divide by 2, select peripheral PLL 0.
pub open spec fn apb_ops() -> Seq<RegOp> {
    seq![
        RegOp::Write { addr: ccu(CCU_APB0_CLK_REG), value: 2 | (1u32 << 8u32) },
        RegOp::Modify { addr: ccu(CCU_APB0_CLK_REG), clear: 0, set: 3u32 << 24u32 },
        RegOp::DelayMicros { us: 1 },
    ]
}

/// DMA: release from reset, then open its clock gate.
pub open spec fn dma_ops() -> Seq<RegOp> {
    seq![
        RegOp::Modify { addr: ccu(CCU_DMA_BGR_REG), clear: 0, set: 1u32 << 16u32 },
        RegOp::DelayMicros { us: 20 },
        RegOp::Modify { addr: ccu(CCU_DMA_BGR_REG), clear: 0, set: 1 },
    ]
}

/// Releases the MBUS domain from reset.
pub open spec fn mbus_ops() -> Seq<RegOp> {
    seq![
        RegOp::Modify { addr: ccu(CCU_MBUS_CLK_REG), clear: 0, set: 1u32 << 30u32 },
        RegOp::DelayMicros { us: 1 },
    ]
}

/// Starts the PLL whose control register is at `addr`, unless it runs.
pub open spec fn module_ops(addr: usize) -> Seq<RegOp> {
    seq![
        RegOp::SkipIfSet { addr, mask: PLL_ENABLE, count: 5 },
        RegOp::Modify { addr, clear: 0, set: PLL_ENABLE | PLL_LDO_ENABLE },
        RegOp::Modify { addr, clear: 0, set: PLL_LOCK_ENABLE },
        RegOp::WaitSet { addr, mask: PLL_LOCKED },
        RegOp::DelayMicros { us: 20 },
        RegOp::Modify { addr, clear: PLL_LOCK_ENABLE, set: 0 },
    ]
}

/// The whole clock tree bring-up.
pub open spec fn init_clock_ops() -> Seq<RegOp> {
    pll_cpux_axi_ops() + pll_periph0_ops() + ahb_ops() + apb_ops() + dma_ops() + mbus_ops()
        + module_ops(ccu(CCU_PLL_PERI0_CTRL_REG)) + module_ops(ccu(CCU_PLL_VIDEO0_CTRL_REG))
        + module_ops(ccu(CCU_PLL_VIDEO1_CTRL_REG)) + module_ops(ccu(CCU_PLL_VE_CTRL))
        + module_ops(ccu(CCU_PLL_AUDIO0_CTRL_REG)) + module_ops(ccu(CCU_PLL_AUDIO1_CTRL_REG))
}

pub fn set_pll_cpux_axi() -> (r: Vec<RegOp>)
    ensures
        r@ =~= pll_cpux_axi_ops(),
{
    let cpu = D1_CCU_BASE + CCU_PLL_CPU_CTRL_REG;
    let riscv = D1_CCU_BASE + CCU_RISCV_CLK_REG;
    let mut ops: Vec<RegOp> = Vec::new();
    ops.push(RegOp::Write { addr: riscv, value: (3u32 << 8u32) | 1 });
    ops.push(RegOp::DelayMicros { us: 1 });
    ops.push(RegOp::Modify { addr: cpu, clear: PLL_OUTPUT_GATE, set: 0 });
    ops.push(RegOp::Modify { addr: cpu, clear: 0, set: PLL_LDO_ENABLE });
    ops.push(RegOp::DelayMicros { us: 5 });
    ops.push(
        RegOp::Modify {
            addr: cpu,
            clear: (3u32 << 16u32) | (0xFFu32 << 8u32) | 3,
            set: 41u32 << 8u32,
        },
    );
    ops.push(RegOp::Modify { addr: cpu, clear: 0, set: PLL_LOCK_ENABLE });
    ops.push(RegOp::Modify { addr: cpu, clear: 0, set: PLL_ENABLE });
    ops.push(RegOp::WaitSet { addr: cpu, mask: PLL_LOCKED });
    ops.push(RegOp::DelayMicros { us: 20 });
    ops.push(RegOp::Modify { addr: cpu, clear: 0, set: PLL_OUTPUT_GATE });
    ops.push(RegOp::Modify { addr: cpu, clear: PLL_LOCK_ENABLE, set: 0 });
    ops.push(RegOp::DelayMicros { us: 1 });
    ops.push(
        RegOp::Modify {
            addr: riscv,
            clear: (7u32 << 24u32) | (3u32 << 8u32) | 0xF,
            set: (5u32 << 24u32) | (1u32 << 8u32),
        },
    );
    ops.push(RegOp::DelayMicros { us: 1 });
    ops
}

pub fn set_pll_periph0() -> (r: Vec<RegOp>)
    ensures
        r@ =~= pll_periph0_ops(),
{
    let peri0 = D1_CCU_BASE + CCU_PLL_PERI0_CTRL_REG;
    let mut ops: Vec<RegOp> = Vec::new();
    ops.push(RegOp::SkipIfSet { addr: peri0, mask: PLL_ENABLE, count: 7 });
    ops.push(RegOp::Modify { addr: D1_CCU_BASE + CCU_PSI_CLK_REG, clear: 3u32 << 24u32, set: 0 });
    ops.push(RegOp::Write { addr: peri0, value: 0x63u32 << 8u32 });
    ops.push(RegOp::Modify { addr: peri0, clear: 0, set: PLL_LOCK_ENABLE });
    ops.push(RegOp::Modify { addr: peri0, clear: 0, set: PLL_ENABLE });
    ops.push(RegOp::WaitSet { addr: peri0, mask: PLL_LOCKED });
    ops.push(RegOp::DelayMicros { us: 20 });
    ops.push(RegOp::Modify { addr: peri0, clear: PLL_LOCK_ENABLE, set: 0 });
    ops
}

pub fn set_ahb() -> (r: Vec<RegOp>)
    ensures
        r@ =~= ahb_ops(),
{
    let mut ops: Vec<RegOp> = Vec::new();
    ops.push(RegOp::Write { addr: D1_CCU_BASE + CCU_PSI_CLK_REG, value: 2 });
    ops.push(RegOp::Modify { addr: D1_CCU_BASE + CCU_PSI_CLK_REG, clear: 0, set: 3u32 << 24u32 });
    ops.push(RegOp::DelayMicros { us: 1 });
    ops
}

pub fn set_apb() -> (r: Vec<RegOp>)
    ensures
        r@ =~= apb_ops(),
{
    let mut ops: Vec<RegOp> = Vec::new();
    ops.push(RegOp::Write { addr: D1_CCU_BASE + CCU_APB0_CLK_REG, value: 2 | (1u32 << 8u32) });
    ops.push(
        RegOp::Modify { addr: D1_CCU_BASE + CCU_APB0_CLK_REG, clear: 0, set: 3u32 << 24u32 },
    );
    ops.push(RegOp::DelayMicros { us: 1 });
    ops
}

pub fn set_dma() -> (r: Vec<RegOp>)
    ensures
        r@ =~= dma_ops(),
{
    let mut ops: Vec<RegOp> = Vec::new();
    ops.push(RegOp::Modify { addr: D1_CCU_BASE + CCU_DMA_BGR_REG, clear: 0, set: 1u32 << 16u32 });
    ops.push(RegOp::DelayMicros { us: 20 });
    ops.push(RegOp::Modify { addr: D1_CCU_BASE + CCU_DMA_BGR_REG, clear: 0, set: 1 });
    ops
}

pub fn set_mbus() -> (r: Vec<RegOp>)
    ensures
        r@ =~= mbus_ops(),
{
    let mut ops: Vec<RegOp> = Vec::new();
    ops.push(
        RegOp::Modify { addr: D1_CCU_BASE + CCU_MBUS_CLK_REG, clear: 0, set: 1u32 << 30u32 },
    );
    ops.push(RegOp::DelayMicros { us: 1 });
    ops
}

pub fn set_module(addr: usize) -> (r: Vec<RegOp>)
    ensures
        r@ =~= module_ops(addr),
{
    let mut ops: Vec<RegOp> = Vec::new();
    ops.push(RegOp::SkipIfSet { addr, mask: PLL_ENABLE, count: 5 });
    ops.push(RegOp::Modify { addr, clear: 0, set: PLL_ENABLE | PLL_LDO_ENABLE });
    ops.push(RegOp::Modify { addr, clear: 0, set: PLL_LOCK_ENABLE });
    ops.push(RegOp::WaitSet { addr, mask: PLL_LOCKED });
    ops.push(RegOp::DelayMicros { us: 20 });
    ops.push(RegOp::Modify { addr, clear: PLL_LOCK_ENABLE, set: 0 });
    ops
}

/// Opens the clock gate of UART `uart_num` and releases it from reset;
/// `addr` is the UART bus-gating register.
pub fn clk_enable_module_uart(addr: usize, uart_num: u8) -> (r: Vec<RegOp>)
    requires
        uart_num < 16,
    ensures
        r@ =~= seq![
            RegOp::Modify { addr, clear: 0, set: 1u32 << uart_num },
            RegOp::Modify { addr, clear: 0, set: 1u32 << (16 + uart_num) as u32 },
        ],
{
    let mut ops: Vec<RegOp> = Vec::new();
    ops.push(RegOp::Modify { addr, clear: 0, set: 1u32 << uart_num });
    ops.push(RegOp::Modify { addr, clear: 0, set: 1u32 << (16 + uart_num) });
    ops
}

pub fn init_clock() -> (r: Vec<RegOp>)
    ensures
        r@ =~= init_clock_ops(),
{
    let mut ops = set_pll_cpux_axi();
    let mut more = set_pll_periph0();
    ops.append(&mut more);
    let mut more = set_ahb();
    ops.append(&mut more);
    let mut more = set_apb();
    ops.append(&mut more);
    let mut more = set_dma();
    ops.append(&mut more);
    let mut more = set_mbus();
    ops.append(&mut more);
    let mut more = set_module(D1_CCU_BASE + CCU_PLL_PERI0_CTRL_REG);
    ops.append(&mut more);
    let mut more = set_module(D1_CCU_BASE + CCU_PLL_VIDEO0_CTRL_REG);
    ops.append(&mut more);
    let mut more = set_module(D1_CCU_BASE + CCU_PLL_VIDEO1_CTRL_REG);
    ops.append(&mut more);
    let mut more = set_module(D1_CCU_BASE + CCU_PLL_VE_CTRL);
    ops.append(&mut more);
    let mut more = set_module(D1_CCU_BASE + CCU_PLL_AUDIO0_CTRL_REG);
    ops.append(&mut more);
    let mut more = set_module(D1_CCU_BASE + CCU_PLL_AUDIO1_CTRL_REG);
    ops.append(&mut more);
    ops
}

} // verus!
