//! Hardware-facing core of a small bare-metal kernel: register handles and
//! platform detection, the firmware mailbox protocol, polled serial
//! transmission, a spinlock mutex, a one-time cell, the trap descriptor
//! table and a text-mode console.
//!
//! The routines here decide what is to be read or written; the volatile
//! accesses themselves are made by the caller, one register operation at a
//! time.

pub mod clk;
pub mod console;
pub mod d1;
pub mod gpio;
pub mod interrupt;
pub mod lazy;
pub mod mailbox;
pub mod mmio;
pub mod serial;
pub mod sync;
pub mod vga;
