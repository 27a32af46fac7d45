use bare_kernel::mailbox::{
    Channel, MailboxAction, MailboxBuffer, MailboxCall, MailboxPhase, Message, MBOX_EMPTY,
    MBOX_FULL, MBOX_READ, MBOX_STATUS, MBOX_TAG_GETSERIAL, MBOX_WRITE,
};
use bare_kernel::mmio::resolve_platform;

const BASE: usize = 0x3F00_0000;

#[test]
fn message_word_carries_channel() {
    let msg = Message::new(0x8_0000, Channel::PropertyTagsARMToVC);
    assert_eq!(msg.word(), 0x8_0008);
    assert_eq!(Message::new(0x10, Channel::PowerManagement).word(), 0x10);
    assert_eq!(Message::new(0xFFFF_FFF0, Channel::PropertyTagsVCToARM).word(), 0xFFFF_FFF9);
}

#[test]
fn channel_numbers() {
    assert_eq!(Channel::PowerManagement.number(), 0);
    assert_eq!(Channel::FrameBuffer.number(), 1);
    assert_eq!(Channel::Counter.number(), 7);
    assert_eq!(Channel::PropertyTagsARMToVC.number(), 8);
    assert_eq!(Channel::PropertyTagsVCToARM.number(), 9);
}

#[test]
fn mailbox_call_waits_for_its_own_echo() {
    let msg = Message::new(0x8_0000, Channel::PropertyTagsARMToVC);
    let (mut call, first) = MailboxCall::start(resolve_platform(0), &msg);
    assert_eq!(first, MailboxAction::Read { addr: BASE + MBOX_STATUS });

    // full twice, then room
    assert_eq!(call.step(MBOX_FULL), MailboxAction::Read { addr: BASE + MBOX_STATUS });
    assert_eq!(call.step(MBOX_FULL | MBOX_EMPTY), MailboxAction::Read { addr: BASE + MBOX_STATUS });
    assert_eq!(call.step(0), MailboxAction::Write { addr: BASE + MBOX_WRITE, value: 0x8_0008 });
    assert_eq!(call.phase(), MailboxPhase::Posted);
    assert_eq!(call.step(0), MailboxAction::Read { addr: BASE + MBOX_STATUS });

    // nothing yet
    assert_eq!(call.step(MBOX_EMPTY), MailboxAction::Read { addr: BASE + MBOX_STATUS });
    // a reply arrives, but for another request
    assert_eq!(call.step(0), MailboxAction::Read { addr: BASE + MBOX_READ });
    assert_eq!(call.step(0x9_0008), MailboxAction::Read { addr: BASE + MBOX_STATUS });
    assert_ne!(call.phase(), MailboxPhase::Done);
    // same buffer, other channel: still not ours
    assert_eq!(call.step(0), MailboxAction::Read { addr: BASE + MBOX_READ });
    assert_eq!(call.step(0x8_0009), MailboxAction::Read { addr: BASE + MBOX_STATUS });
    // our echo
    assert_eq!(call.step(0), MailboxAction::Read { addr: BASE + MBOX_READ });
    assert_eq!(call.step(0x8_0008), MailboxAction::Finished);
    assert_eq!(call.phase(), MailboxPhase::Done);
    assert_eq!(call.step(12345), MailboxAction::Finished);
}

#[test]
fn serial_request_layout() {
    let buf = MailboxBuffer::serial_request();
    assert_eq!(buf.0, [32, 0, MBOX_TAG_GETSERIAL, 8, 8, 0, 0, 0]);
    let answered: MailboxBuffer<8> =
        [32, 0x8000_0000, MBOX_TAG_GETSERIAL, 8, 0x8000_0008, 0x1234_5678, 0x0000_00AB, 0].into();
    assert_eq!(answered.serial_number(), (0xAB, 0x1234_5678));
}
