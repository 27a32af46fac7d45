use std::collections::HashMap;

use bare_kernel::mailbox::{
    Channel, MailboxAction, MailboxBuffer, MailboxCall, Message, MBOX_EMPTY, MBOX_READ,
    MBOX_STATUS, MBOX_WRITE,
};
use bare_kernel::mmio::{resolve_platform, PlatformBase, RegOp};
use bare_kernel::serial::{Uart, AUX_MU_IO, AUX_MU_LSR};
use bare_kernel::sync::{Mutex, TryLockError};

/// A register file that accepts every byte sent to the mini UART.
struct Board {
    base: usize,
    regs: HashMap<usize, u32>,
    line: Vec<u8>,
}

impl Board {
    fn new(base: &PlatformBase) -> Board {
        Board { base: base.addr(), regs: HashMap::new(), line: Vec::new() }
    }

    fn read(&self, addr: usize) -> u32 {
        if addr == self.base + AUX_MU_LSR {
            0x20
        } else {
            *self.regs.get(&addr).unwrap_or(&0)
        }
    }

    fn run(&mut self, ops: &[RegOp]) {
        let mut i = 0;
        while i < ops.len() {
            let op = ops[i];
            match op {
                RegOp::Write { addr, value } => {
                    if addr == self.base + AUX_MU_IO {
                        self.line.push(value as u8);
                    }
                    self.regs.insert(addr, value);
                }
                RegOp::Modify { addr, .. } => {
                    let v = op.next_value(self.read(addr));
                    self.regs.insert(addr, v);
                }
                RegOp::WaitSet { addr, .. } | RegOp::WaitClear { addr, .. } => {
                    assert!(op.wait_over(self.read(addr)));
                }
                RegOp::Delay { .. } | RegOp::DelayMicros { .. } => {}
                RegOp::SkipIfSet { addr, .. } => i += op.skip_count(self.read(addr)),
            }
            i += 1;
        }
    }
}

#[test]
fn boot_prints_greeting_and_serial_number() {
    // a Cortex-A53 board
    let base = resolve_platform(0x410F_D034);
    assert_eq!(base.addr(), 0x3F00_0000);
    let mut board = Board::new(&base);

    let uart = Uart::new(base);
    let init = uart.init();
    assert!(init.contains(&RegOp::Modify {
        addr: 0x3F20_0004,
        clear: (7 << 12) | (7 << 15),
        set: (2 << 12) | (2 << 15),
    }));
    board.run(&init);
    assert_eq!(board.read(0x3F20_0004) & 0x3F000, 0x12000);
    assert_eq!(board.read(0x3F21_5060), 3);

    // two call sites share the serial line through one lock
    let mut shared = Mutex::new(uart);
    let first = shared.lock();
    assert!(matches!(shared.try_lock(), Err(TryLockError::WouldBlock)));
    board.run(&shared.get(&first).write_str("Hello World!\n"));
    shared.unlock(first);

    // ask the firmware for the serial number
    let mut buffer = MailboxBuffer::serial_request();
    let msg = Message::new(0x8_0000, Channel::PropertyTagsARMToVC);
    let (mut call, mut action) = MailboxCall::start(base, &msg);
    let mut replies = vec![0x9_0008u32, 0x8_0008].into_iter();
    let mut posted = None;
    let mut steps = 0;
    while action != MailboxAction::Finished {
        steps += 1;
        assert!(steps < 100);
        let observed = match action {
            MailboxAction::Read { addr } if addr == 0x3F00_0000 + MBOX_STATUS => {
                if posted.is_some() { 0 } else { MBOX_EMPTY }
            }
            MailboxAction::Read { addr } => {
                assert_eq!(addr, 0x3F00_0000 + MBOX_READ);
                let r = replies.next().unwrap();
                if r == 0x8_0008 {
                    // the firmware answered in place
                    buffer.0[1] = 0x8000_0000;
                    buffer.0[5] = 0x1234_5678;
                    buffer.0[6] = 0xAB;
                }
                r
            }
            MailboxAction::Write { addr, value } => {
                assert_eq!(addr, 0x3F00_0000 + MBOX_WRITE);
                posted = Some(value);
                0
            }
            MailboxAction::Finished => unreachable!(),
        };
        action = call.step(observed);
    }
    assert_eq!(posted, Some(0x8_0008));
    let (s1, s2) = buffer.serial_number();

    let second = shared.lock();
    board.run(&shared.get(&second).write_str(&format!("Serial number: {:X}{:X}\n", s1, s2)));
    shared.unlock(second);

    assert_eq!(
        String::from_utf8(board.line.clone()).unwrap(),
        "Hello World!\r\nSerial number: AB12345678\r\n"
    );
}
