use std::collections::HashMap;

use bare_kernel::clk::{
    clk_enable_module_uart, init_clock, set_module, set_pll_periph0, CCU_PLL_PERI0_CTRL_REG,
    CCU_UART_BGR_REG, D1_CCU_BASE,
};
use bare_kernel::d1::{init_jtag, init_uart, pin_config, PB_CFG1, PF_CFG0};
use bare_kernel::mmio::{delay_deadline, delay_elapsed, RegOp};

/// A register file whose PLLs lock as soon as they are enabled.
struct Ccu {
    regs: HashMap<usize, u32>,
    waits: usize,
}

impl Ccu {
    fn new() -> Ccu {
        Ccu { regs: HashMap::new(), waits: 0 }
    }

    fn read(&self, addr: usize) -> u32 {
        let v = *self.regs.get(&addr).unwrap_or(&0);
        if v & (1 << 31) != 0 { v | (1 << 28) } else { v }
    }

    fn run(&mut self, ops: &[RegOp]) {
        let mut i = 0;
        while i < ops.len() {
            let op = ops[i];
            match op {
                RegOp::Write { addr, value } => {
                    self.regs.insert(addr, value);
                }
                RegOp::Modify { addr, .. } => {
                    let v = op.next_value(self.read(addr));
                    self.regs.insert(addr, v);
                }
                RegOp::WaitSet { addr, .. } | RegOp::WaitClear { addr, .. } => {
                    self.waits += 1;
                    assert!(op.wait_over(self.read(addr)));
                }
                RegOp::Delay { .. } | RegOp::DelayMicros { .. } => {}
                RegOp::SkipIfSet { addr, .. } => i += op.skip_count(self.read(addr)),
            }
            i += 1;
        }
    }
}

#[test]
fn uart_clock_gate_and_reset() {
    let ops = clk_enable_module_uart(D1_CCU_BASE + CCU_UART_BGR_REG, 2);
    assert_eq!(
        ops,
        vec![
            RegOp::Modify { addr: 0x0200_190C, clear: 0, set: 1 << 2 },
            RegOp::Modify { addr: 0x0200_190C, clear: 0, set: 1 << 18 },
        ]
    );
}

#[test]
fn running_pll_is_left_alone() {
    let peri0 = D1_CCU_BASE + CCU_PLL_PERI0_CTRL_REG;
    let mut ccu = Ccu::new();
    ccu.regs.insert(peri0, 0x8000_1234);
    ccu.run(&set_pll_periph0());
    assert_eq!(ccu.regs[&peri0], 0x8000_1234);
    assert_eq!(ccu.waits, 0);
    ccu.run(&set_module(peri0));
    assert_eq!(ccu.regs[&peri0], 0x8000_1234);
}

#[test]
fn stopped_pll_is_started_and_unlocked() {
    let addr = 0x0200_1040;
    let mut ccu = Ccu::new();
    ccu.run(&set_module(addr));
    // enabled, LDO on, lock enable cleared again
    assert_eq!(ccu.regs[&addr] & 0xE000_0000, 0xC000_0000);
    assert_eq!(ccu.waits, 1);
}

#[test]
fn clock_tree_bring_up() {
    let mut ccu = Ccu::new();
    let ops = init_clock();
    assert_eq!(ops.len(), 15 + 8 + 3 + 3 + 3 + 2 + 6 * 6);
    ccu.run(&ops);
    // the CPU PLL runs at 41 + 1 times 24 MHz, the CPU clock comes from it
    assert_eq!(ccu.regs[&0x0200_1000] & 0xFFFF, 41 << 8);
    assert_eq!(ccu.regs[&0x0200_1D00], (5 << 24) | (1 << 8));
    assert_eq!(ccu.regs[&0x0200_1020] & 0xFFFF, 0x63 << 8);
}

#[test]
fn jtag_and_console_pins() {
    assert_eq!(
        pin_config(PF_CFG0, 3, 4),
        RegOp::Modify { addr: 0x0200_00F0, clear: 0xF << 12, set: 4 << 12 }
    );
    let mut ccu = Ccu::new();
    ccu.regs.insert(PF_CFG0, 0xFFFF_FFFF);
    ccu.run(&init_jtag());
    assert_eq!(ccu.regs[&PF_CFG0], 0xFF4F_4F44);
    let ops = init_uart();
    assert_eq!(ops[0], RegOp::Modify { addr: PB_CFG1, clear: 0xF, set: 6 });
    assert_eq!(ops[1], RegOp::Modify { addr: PB_CFG1, clear: 0xF0, set: 0x60 });
    ccu.run(&ops);
    assert_eq!(ccu.regs[&PB_CFG1] & 0xFF, 0x66);
    assert_eq!(ccu.regs[&0x0200_190C], 0x1_0001);
    // divisor 13 through the latch of UART0
    assert_eq!(ccu.regs[&0x0250_0000], 13);
    assert_eq!(ccu.regs[&0x0250_000C], 0b11);
}

#[test]
fn microsecond_delays() {
    assert_eq!(delay_deadline(100, 2), 148);
    assert!(!delay_elapsed(148, 148));
    assert!(delay_elapsed(148, 149));
}
