use bare_kernel::mmio::{resolve_platform, RegOp};
use bare_kernel::serial::{
    line_bytes, Pl011, RegWidth, Uart, AUX_MU_IO, AUX_MU_LSR, NS16550, PL011_DR, PL011_FR,
};

fn check_divisor(clock: u32, baud: u32, expected: u16) {
    assert_eq!(NS16550::calc_divisor(clock, baud), expected);
}

#[test]
fn calc_divisor_1843200_50() {
    check_divisor(1843200, 50, 2304);
}

#[test]
fn calc_divisor_1843200_300() {
    check_divisor(1843200, 300, 384);
}

#[test]
fn calc_divisor_1843200_1200() {
    check_divisor(1843200, 1200, 96);
}

#[test]
fn calc_divisor_1843200_2400() {
    check_divisor(1843200, 2400, 48);
}

#[test]
fn calc_divisor_1843200_4800() {
    check_divisor(1843200, 4800, 24);
}

#[test]
fn calc_divisor_1843200_9600() {
    check_divisor(1843200, 9600, 12);
}

#[test]
fn calc_divisor_1843200_19200() {
    check_divisor(1843200, 19200, 6);
}

#[test]
fn calc_divisor_1843200_38400() {
    check_divisor(1843200, 38400, 3);
}

#[test]
fn calc_divisor_1843200_57600() {
    check_divisor(1843200, 57600, 2);
}

#[test]
fn calc_divisor_1843200_115200() {
    check_divisor(1843200, 115200, 1);
}

#[test]
fn calc_divisor_24000000_115200() {
    check_divisor(24000000, 115200, 13);
}

#[test]
fn calc_divisor_rounds_down() {
    // 1_843_200 / (16 * 100_000) is 1.152; 1000 / (16 * 115_200) is below 1
    check_divisor(1843200, 100000, 1);
    check_divisor(1000, 115200, 0);
}

#[test]
fn calc_divisor_keeps_low_sixteen_bits() {
    // 0xFFFF_FFFF / 16 = 0x0FFF_FFFF, of which 0xFFFF is kept
    check_divisor(u32::MAX, 1, 0xFFFF);
}

#[test]
fn line_bytes_inserts_carriage_return() {
    assert_eq!(line_bytes("a\nb"), vec![b'a', b'\r', b'\n', b'b']);
    assert_eq!(line_bytes(""), Vec::<u8>::new());
    assert_eq!(line_bytes("\n\n"), vec![b'\r', b'\n', b'\r', b'\n']);
    assert_eq!(line_bytes("no break"), b"no break".to_vec());
}

fn written_bytes(ops: &[RegOp], data: usize) -> Vec<u8> {
    ops.iter()
        .filter_map(|op| match op {
            RegOp::Write { addr, value } if *addr == data => Some(*value as u8),
            _ => None,
        })
        .collect()
}

#[test]
fn mini_uart_write_str_puts_cr_before_lf() {
    let base = resolve_platform(0x410F_D034);
    let uart = Uart::new(base);
    let ops = uart.write_str("a\nb");
    let data = 0x3F00_0000 + AUX_MU_IO;
    let ready = RegOp::WaitSet { addr: 0x3F00_0000 + AUX_MU_LSR, mask: 0x20 };
    assert_eq!(
        ops,
        vec![
            ready,
            RegOp::Write { addr: data, value: b'a' as u32 },
            ready,
            RegOp::Write { addr: data, value: b'\r' as u32 },
            ready,
            RegOp::Write { addr: data, value: b'\n' as u32 },
            ready,
            RegOp::Write { addr: data, value: b'b' as u32 },
        ]
    );
}

#[test]
fn mini_uart_transmit_single_byte() {
    let uart = Uart::new(resolve_platform(0x410F_D083));
    let ops = uart.transmit(b'Z');
    assert_eq!(
        ops,
        vec![
            RegOp::WaitSet { addr: 0xFE00_0000 + AUX_MU_LSR, mask: 0x20 },
            RegOp::Write { addr: 0xFE00_0000 + AUX_MU_IO, value: b'Z' as u32 },
        ]
    );
}

#[test]
fn pl011_waits_for_room_in_fifo() {
    let uart = Pl011::new(resolve_platform(0));
    let ops = uart.write_str("\n");
    let ready = RegOp::WaitClear { addr: 0x3F00_0000 + PL011_FR, mask: 0x20 };
    assert_eq!(
        ops,
        vec![
            ready,
            RegOp::Write { addr: 0x3F00_0000 + PL011_DR, value: 13 },
            ready,
            RegOp::Write { addr: 0x3F00_0000 + PL011_DR, value: 10 },
        ]
    );
    assert_eq!(written_bytes(&uart.transmit(7), 0x3F00_0000 + PL011_DR), vec![7]);
}

#[test]
fn ns16550_byte_stride_registers() {
    let port = NS16550::new(0x3F8, RegWidth::Byte);
    let ops = port.write_str("Hi\n");
    let ready = RegOp::WaitSet { addr: 0x3F8 + 5, mask: 0x20 };
    assert_eq!(ops.len(), 8);
    for pair in ops.chunks(2) {
        assert_eq!(pair[0], ready);
    }
    assert_eq!(written_bytes(&ops, 0x3F8), b"Hi\r\n".to_vec());
}

#[test]
fn ns16550_init_programs_divisor_latch() {
    let port = NS16550::new(0x0250_0000, RegWidth::Word);
    let ops = port.init(24_000_000, 115_200);
    let b = 0x0250_0000;
    assert_eq!(
        ops,
        vec![
            RegOp::Write { addr: b + 8, value: 0b111 },
            RegOp::Write { addr: b + 12, value: 0b11 },
            RegOp::Write { addr: b + 4, value: 0 },
            RegOp::Modify { addr: b + 12, clear: 0, set: 0x80 },
            RegOp::Write { addr: b, value: 13 },
            RegOp::Write { addr: b + 4, value: 0 },
            RegOp::Modify { addr: b + 12, clear: 0x80, set: 0 },
        ]
    );
}

#[test]
fn ns16550_init_splits_large_divisor() {
    let port = NS16550::new(0x3F8, RegWidth::Byte);
    let ops = port.init(1_843_200, 50);
    // 2304 = 0x0900
    assert_eq!(ops[4], RegOp::Write { addr: 0x3F8, value: 0x00 });
    assert_eq!(ops[5], RegOp::Write { addr: 0x3F9, value: 0x09 });
}
