use vstd::prelude::*;
use crate::mmio::PlatformBase;

verus! {

/// Offset of the mailbox block from the peripheral base.
pub const MAIL_BASE: usize = 0xB880;

/// Register the firmware's replies are read from.
pub const MBOX_READ: usize = MAIL_BASE;

/// Mailbox status register.
pub const MBOX_STATUS: usize = MAIL_BASE + 0x18;

/// Register requests are posted to.
pub const MBOX_WRITE: usize = MAIL_BASE + 0x20;

/// Status bit: no room to post a request.
pub const MBOX_FULL: u32 = 0x8000_0000;

/// Status bit: no reply waiting.
pub const MBOX_EMPTY: u32 = 0x4000_0000;

/// Request code of a message.
pub const MBOX_REQUEST: u32 = 0;

/// Property tag: get board serial number.
pub const MBOX_TAG_GETSERIAL: u32 = 0x10004;

/// The tag that ends a message.
pub const MBOX_TAG_LAST: u32 = 0;

/// A logical mailbox queue.
#[derive(Clone, Copy, Debug, PartialEq, Eq, Structural)]
pub enum Channel {
    PowerManagement,
    FrameBuffer,
    VirtualUART,
    VCHIQ,
    LEDs,
    Buttons,
    TouchScreen,
    Counter,
    PropertyTagsARMToVC,
    PropertyTagsVCToARM,
}

impl Channel {
    pub open spec fn spec_number(self) -> u32 {
        match self {
            Channel::PowerManagement => 0,
            Channel::FrameBuffer => 1,
            Channel::VirtualUART => 2,
            Channel::VCHIQ => 3,
            Channel::LEDs => 4,
            Channel::Buttons => 5,
            Channel::TouchScreen => 6,
            Channel::Counter => 7,
            Channel::PropertyTagsARMToVC => 8,
            Channel::PropertyTagsVCToARM => 9,
        }
    }

    pub fn number(self) -> (r: u32)
        ensures
            r == self.spec_number(),
    {
        match self {
            Channel::PowerManagement => 0,
            Channel::FrameBuffer => 1,
            Channel::VirtualUART => 2,
            Channel::VCHIQ => 3,
            Channel::LEDs => 4,
            Channel::Buttons => 5,
            Channel::TouchScreen => 6,
            Channel::Counter => 7,
            Channel::PropertyTagsARMToVC => 8,
            Channel::PropertyTagsVCToARM => 9,
        }
    }
}

/// The word posted for a message buffer: its address, whose low four bits
/// are zero, with the channel number in those bits.
#[derive(Clone, Copy, Debug, PartialEq, Eq, Structural)]
pub struct Message {
    v: u32,
}

impl Message {
    pub closed spec fn spec_word(self) -> u32 {
        self.v
    }

    /// The message for the buffer at `buffer_addr` on `channel`; the
    /// address must fit in 32 bits and be 16-byte aligned.
    pub fn new(buffer_addr: usize, channel: Channel) -> (r: Self)
        requires
            buffer_addr <= u32::MAX,
            buffer_addr % 16 == 0,
        ensures
            r.spec_word() == (buffer_addr as u32) | channel.spec_number(),
            r.spec_word() & !0xFu32 == buffer_addr as u32,
            r.spec_word() & 0xF == channel.spec_number(),
    {
        let a = buffer_addr as u32;
        let c = channel.number();
        assert(a % 16 == 0 && c <= 9 ==> (a | c) & !0xFu32 == a && (a | c) & 0xF == c)
            by (bit_vector);
        Message { v: a | c }
    }

    pub fn word(&self) -> (r: u32)
        ensures
            r == self.spec_word(),
    {
        self.v
    }
}

/// Where a mailbox call stands.
#[derive(Clone, Copy, Debug, PartialEq, Eq, Structural)]
pub enum MailboxPhase {
    /// Waiting for room to post the request.
    AwaitSpace,
    /// The request has just been posted.
    Posted,
    /// Waiting for a reply to arrive.
    AwaitReply,
    /// A reply has been read and is to be compared.
    CheckReply,
    /// Our own reply has come back; the buffer holds the response.
    Done,
}

/// What the caller is to do next for a mailbox call.
#[derive(Clone, Copy, Debug, PartialEq, Eq, Structural)]
pub enum MailboxAction {
    /// Read the register at `addr` and hand the value back.
    Read { addr: usize },
    /// Store `value` at `addr`, then hand back any value.
    Write { addr: usize, value: u32 },
    /// The call has succeeded.
    Finished,
}

/// The phase after `observed` was handed back in `phase`, for a call whose
/// posted word is `word`. A reply that is not `word` belongs to another
/// request and sends the call back to waiting.
pub open spec fn mailbox_next_phase(phase: MailboxPhase, word: u32, observed: u32) -> MailboxPhase {
    match phase {
        MailboxPhase::AwaitSpace => if observed & MBOX_FULL != 0 {
            MailboxPhase::AwaitSpace
        } else {
            MailboxPhase::Posted
        },
        MailboxPhase::Posted => MailboxPhase::AwaitReply,
        MailboxPhase::AwaitReply => if observed & MBOX_EMPTY != 0 {
            MailboxPhase::AwaitReply
        } else {
            MailboxPhase::CheckReply
        },
        MailboxPhase::CheckReply => if observed == word {
            MailboxPhase::Done
        } else {
            MailboxPhase::AwaitReply
        },
        MailboxPhase::Done => MailboxPhase::Done,
    }
}

/// The phase reached after handing back `events` in turn from the start.
#[verifier::opaque]
pub open spec fn mailbox_run(word: u32, events: Seq<u32>) -> MailboxPhase
    decreases events.len(),
{
    if events.len() == 0 {
        MailboxPhase::AwaitSpace
    } else {
        mailbox_next_phase(mailbox_run(word, events.drop_last()), word, events.last())
    }
}

/// Some reply read along `events` was exactly the posted word.
pub open spec fn echo_seen(word: u32, events: Seq<u32>) -> bool {
    exists|i: int|
        0 <= i < events.len() && mailbox_run(word, events.take(i)) == MailboxPhase::CheckReply
            && #[trigger] events[i] == word
}

/// Extending the events by one: an echo has been seen if one was seen
/// before, or the new event is the posted word read back.
proof fn lemma_echo_seen_step(word: u32, events: Seq<u32>)
    requires
        events.len() > 0,
    ensures
        echo_seen(word, events) == (echo_seen(word, events.drop_last()) || (mailbox_run(
            word,
            events.drop_last(),
        ) == MailboxPhase::CheckReply && events.last() == word)),
{
    let prev = events.drop_last();
    let n = events.len() - 1;
    assert(events.take(n) =~= prev);
    if echo_seen(word, prev) {
        let i = choose|i: int|
            0 <= i < prev.len() && mailbox_run(word, prev.take(i)) == MailboxPhase::CheckReply
                && #[trigger] prev[i] == word;
        assert(prev.take(i) =~= events.take(i));
        assert(events[i] == word);
    }
    if mailbox_run(word, prev) == MailboxPhase::CheckReply && events.last() == word {
        assert(events[n] == word);
    }
    if echo_seen(word, events) {
        let i = choose|i: int|
            0 <= i < events.len() && mailbox_run(word, events.take(i)) == MailboxPhase::CheckReply
                && #[trigger] events[i] == word;
        if i < n {
            assert(prev.take(i) =~= events.take(i));
            assert(prev[i] == word);
        }
    }
}

/// Echo matching: a call succeeds exactly once a reply equal to the posted
/// word has been read; replies to other requests never end it.
pub proof fn lemma_mailbox_echo(word: u32, events: Seq<u32>)
    ensures
        mailbox_run(word, events) == MailboxPhase::Done <==> echo_seen(word, events),
    decreases events.len(),
{
    reveal(mailbox_run);
    if events.len() > 0 {
        lemma_mailbox_echo(word, events.drop_last());
        lemma_echo_seen_step(word, events);
    } else {
        assert(!echo_seen(word, events));
    }
}

/// One mailbox request/response exchange in progress.
pub struct MailboxCall {
    base: PlatformBase,
    word: u32,
    phase: MailboxPhase,
}

impl MailboxCall {
    pub closed spec fn spec_base(&self) -> PlatformBase {
        self.base
    }

    pub closed spec fn spec_word(&self) -> u32 {
        self.word
    }

    pub closed spec fn spec_phase(&self) -> MailboxPhase {
        self.phase
    }

    /// The action that goes with a phase.
    pub open spec fn action_for(&self, phase: MailboxPhase) -> MailboxAction {
        let b = self.spec_base().spec_addr();
        match phase {
            MailboxPhase::AwaitSpace => MailboxAction::Read { addr: (b + MBOX_STATUS) as usize },
            MailboxPhase::Posted => MailboxAction::Write {
                addr: (b + MBOX_WRITE) as usize,
                value: self.spec_word(),
            },
            MailboxPhase::AwaitReply => MailboxAction::Read { addr: (b + MBOX_STATUS) as usize },
            MailboxPhase::CheckReply => MailboxAction::Read { addr: (b + MBOX_READ) as usize },
            MailboxPhase::Done => MailboxAction::Finished,
        }
    }

    /// Starts a call that posts `msg`; the first action reads the status.
    pub fn start(base: PlatformBase, msg: &Message) -> (r: (MailboxCall, MailboxAction))
        requires
            base.wf(),
        ensures
            r.0.spec_base() == base,
            r.0.spec_word() == msg.spec_word(),
            r.0.spec_phase() == MailboxPhase::AwaitSpace,
            r.1 == r.0.action_for(MailboxPhase::AwaitSpace),
    {
        let call = MailboxCall { base, word: msg.word(), phase: MailboxPhase::AwaitSpace };
        (call, MailboxAction::Read { addr: base.addr() + MBOX_STATUS })
    }

    pub fn phase(&self) -> (r: MailboxPhase)
        ensures
            r == self.spec_phase(),
    {
        self.phase
    }

    /// Takes the value the last action produced and says what to do next.
    pub fn step(&mut self, observed: u32) -> (r: MailboxAction)
        requires
            old(self).spec_base().wf(),
        ensures
            final(self).spec_base() == old(self).spec_base(),
            final(self).spec_word() == old(self).spec_word(),
            final(self).spec_phase() == mailbox_next_phase(
                old(self).spec_phase(),
                old(self).spec_word(),
                observed,
            ),
            r == final(self).action_for(final(self).spec_phase()),
            (r == MailboxAction::Finished) == (final(self).spec_phase() == MailboxPhase::Done),
    {
        let next = match self.phase {
            MailboxPhase::AwaitSpace => if observed & MBOX_FULL != 0 {
                MailboxPhase::AwaitSpace
            } else {
                MailboxPhase::Posted
            },
            MailboxPhase::Posted => MailboxPhase::AwaitReply,
            MailboxPhase::AwaitReply => if observed & MBOX_EMPTY != 0 {
                MailboxPhase::AwaitReply
            } else {
                MailboxPhase::CheckReply
            },
            MailboxPhase::CheckReply => if observed == self.word {
                MailboxPhase::Done
            } else {
                MailboxPhase::AwaitReply
            },
            MailboxPhase::Done => MailboxPhase::Done,
        };
        self.phase = next;
        let b = self.base.addr();
        match next {
            MailboxPhase::AwaitSpace => MailboxAction::Read { addr: b + MBOX_STATUS },
            MailboxPhase::Posted => MailboxAction::Write { addr: b + MBOX_WRITE, value: self.word },
            MailboxPhase::AwaitReply => MailboxAction::Read { addr: b + MBOX_STATUS },
            MailboxPhase::CheckReply => MailboxAction::Read { addr: b + MBOX_READ },
            MailboxPhase::Done => MailboxAction::Finished,
        }
    }
}

/// The words of a property-tag message: total size in bytes, request or
/// response code, the tags, and the end tag.
pub struct MailboxBuffer<const N: usize>(pub [u32; N]);

impl<const N: usize> From<[u32; N]> for MailboxBuffer<N> {
    fn from(v: [u32; N]) -> (r: MailboxBuffer<N>)
        ensures
            r.0@ == v@,
    {
        MailboxBuffer(v)
    }
}

impl<const N: usize> vstd::std_specs::convert::FromSpecImpl<[u32; N]> for MailboxBuffer<N> {
    open spec fn obeys_from_spec() -> bool {
        true
    }

    open spec fn from_spec(v: [u32; N]) -> Self {
        MailboxBuffer(v)
    }
}

/// The request for the board serial number: one tag with an eight-byte
/// value buffer.
pub open spec fn serial_request_words() -> Seq<u32> {
    seq![32u32, MBOX_REQUEST, MBOX_TAG_GETSERIAL, 8, 8, 0, 0, MBOX_TAG_LAST]
}

impl MailboxBuffer<8> {
    /// A request for the board serial number.
    pub fn serial_request() -> (r: Self)
        ensures
            r.0@ == serial_request_words(),
    {
        let r = MailboxBuffer([8 * 4, MBOX_REQUEST, MBOX_TAG_GETSERIAL, 8, 8, 0, 0, MBOX_TAG_LAST]);
        assert(r.0@ =~= serial_request_words());
        r
    }

    /// The serial number from an answered request: its high word, then its
    /// low word.
    pub fn serial_number(&self) -> (r: (u32, u32))
        ensures
            r == (self.0@[6], self.0@[5]),
    {
        (self.0[6], self.0[5])
    }
}

} // verus!
