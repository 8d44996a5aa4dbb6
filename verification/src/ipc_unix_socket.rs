//! Protocol discipline of one byte-stream channel endpoint.
//!
//! Everything here is the decision logic the endpoint runs between two
//! system calls: the timeout-bounded retry policy every blocking operation
//! follows, the cursor that accumulates partial reads into a whole envelope,
//! the distinguished "closed by peer" condition, the one-byte acknowledgment,
//! the layout arithmetic of the ancillary message that carries OS handles,
//! and the three-step handle-transfer protocol that keeps the sender from
//! dropping its copy of a handle before the receiver has confirmed custody.

use vstd::prelude::*;

use crate::error::IpcError;

verus! {

/// The longest pause between two attempts of a blocking operation, in
/// milliseconds.
pub const MIN_SLEEP_MILLIS: u64 = 100;

/// How long to pause between two attempts: a small fraction of the timeout,
/// never more than `MIN_SLEEP_MILLIS`.
pub fn sleep_interval(timeout_millis: u64) -> (r: u64)
    ensures
        r == if timeout_millis / 10 < MIN_SLEEP_MILLIS {
            timeout_millis / 10
        } else {
            MIN_SLEEP_MILLIS
        },
{
    let tenth = timeout_millis / 10;
    if tenth < MIN_SLEEP_MILLIS {
        tenth
    } else {
        MIN_SLEEP_MILLIS
    }
}

/// What a bounded retry loop does after one attempt.
#[derive(Clone, Copy, Debug, PartialEq, Eq, Structural)]
pub enum RetryStep {
    /// The attempt produced a result; stop with it.
    Done,
    /// The timeout has elapsed; stop with "no result".
    GiveUp,
    /// Nothing yet and time remains; sleep briefly and try again.
    SleepAndRetry,
}

/// The retry policy every blocking channel operation follows: an attempt
/// that produced a result ends the loop, an elapsed timeout ends it with
/// "no result", and anything else sleeps and retries. No operation ever
/// blocks past its timeout.
pub fn retry_step(got_result: bool, elapsed_millis: u64, timeout_millis: u64) -> (r: RetryStep)
    ensures
        got_result ==> r == RetryStep::Done,
        !got_result && elapsed_millis > timeout_millis ==> r == RetryStep::GiveUp,
        !got_result && elapsed_millis <= timeout_millis ==> r == RetryStep::SleepAndRetry,
{
    if got_result {
        RetryStep::Done
    } else if elapsed_millis > timeout_millis {
        RetryStep::GiveUp
    } else {
        RetryStep::SleepAndRetry
    }
}

/// Accumulates the bytes of one fixed-size envelope across partial reads.
pub struct RecvCursor {
    /// How many bytes a whole envelope has.
    pub expected: usize,
    /// What has arrived so far.
    pub buf: Vec<u8>,
}

impl RecvCursor {
    /// An empty cursor for an envelope of `expected` bytes.
    pub fn new(expected: usize) -> (r: RecvCursor)
        ensures
            r.expected == expected,
            r.buf@.len() == 0,
    {
        RecvCursor { expected, buf: Vec::new() }
    }

    /// How many bytes are still owed.
    pub fn remaining(&self) -> (r: usize)
        requires
            self.buf@.len() <= self.expected,
        ensures
            r == self.expected - self.buf@.len(),
    {
        self.expected - self.buf.len()
    }

    /// Whether a whole envelope has arrived.
    pub fn complete(&self) -> (r: bool)
        ensures
            r == (self.buf@.len() >= self.expected),
    {
        self.buf.len() >= self.expected
    }

    /// Take in the bytes of one partial read; reports whether the envelope
    /// is now whole.
    pub fn feed(&mut self, chunk: &Vec<u8>) -> (done: bool)
        requires
            old(self).buf@.len() + chunk@.len() <= old(self).expected,
        ensures
            final(self).expected == old(self).expected,
            final(self).buf@ == old(self).buf@ + chunk@,
            done == (final(self).buf@.len() == final(self).expected),
    {
        self.buf.extend_from_slice(chunk.as_slice());
        self.buf.len() == self.expected
    }
}

/// What one read from the stream means for the receiver.
#[derive(Clone, Copy, Debug, PartialEq, Eq, Structural)]
pub enum StreamEvent {
    /// Bytes arrived.
    Data,
    /// Nothing is available yet; not an error.
    NothingYet,
    /// The peer closed its end: a short read in the middle of an envelope.
    ClosedByPeer,
}

/// Classify one read: zero bytes halfway through an envelope is the
/// distinguished "connection closed" condition, zero bytes between
/// envelopes merely means nothing has arrived.
pub fn classify_read(bytes_read: usize, mid_envelope: bool) -> (r: StreamEvent)
    ensures
        bytes_read > 0 ==> r == StreamEvent::Data,
        bytes_read == 0 && mid_envelope ==> r == StreamEvent::ClosedByPeer,
        bytes_read == 0 && !mid_envelope ==> r == StreamEvent::NothingYet,
{
    if bytes_read > 0 {
        StreamEvent::Data
    } else if mid_envelope {
        StreamEvent::ClosedByPeer
    } else {
        StreamEvent::NothingYet
    }
}

/// The value of the acknowledgment byte.
pub const ACK_BYTE: u8 = 1;

/// The one-byte acknowledgment message.
pub fn make_ack() -> (r: Vec<u8>)
    ensures
        r@ == seq![ACK_BYTE],
{
    let mut v: Vec<u8> = Vec::new();
    v.push(ACK_BYTE);
    proof {
        assert(v@ =~= seq![ACK_BYTE]);
    }
    v
}

/// Whether a received byte is the acknowledgment.
pub fn check_ack(b: u8) -> (r: bool)
    ensures
        r == (b == ACK_BYTE),
{
    b == ACK_BYTE
}

/// Size of the control-message header that precedes the handles in the
/// ancillary payload, on a 64-bit platform.
pub fn compute_cmsg_header_size() -> (r: usize)
    ensures
        r == 20,
{
    8 + 3 * 4
}

/// Size of the buffer an ancillary message carrying `handle_count` handles
/// needs: the control-message header plus four bytes per handle. The count
/// is bounded only by what the buffer size itself can hold.
pub fn ancillary_buffer_len(handle_count: usize) -> (r: usize)
    requires
        20 + 4 * handle_count <= usize::MAX,
    ensures
        r == 20 + 4 * handle_count,
{
    compute_cmsg_header_size() + 4 * handle_count
}

/// The three-step handle transfer, as both endpoints see it: the data
/// envelope goes first, then the handles as ancillary data, and the sender
/// may drop its copy of a handle only after the receiver's acknowledgment
/// arrives.
#[derive(Clone, Copy, Debug, PartialEq, Eq, Structural)]
pub enum TransferPhase {
    /// Nothing sent yet.
    Idle,
    /// The data envelope is on the wire.
    DataSent,
    /// The ancillary message with the handles is on the wire.
    HandlesSent,
    /// The receiver took custody of the handles.
    HandlesReceived,
    /// The receiver's acknowledgment reached the sender.
    AckReceived,
}

/// State of one handle transfer.
pub struct HandleTransfer {
    pub phase: TransferPhase,
    /// How many handles the sender put in the ancillary message.
    pub sent_count: usize,
    /// How many handles the receiver took out of it.
    pub received_count: usize,
}

impl HandleTransfer {
    /// The counts agree from the moment the receiver takes custody.
    pub open spec fn wf(self) -> bool {
        (self.phase == TransferPhase::HandlesReceived || self.phase == TransferPhase::AckReceived)
            ==> self.received_count == self.sent_count
    }

    pub fn new() -> (r: HandleTransfer)
        ensures
            r.phase == TransferPhase::Idle,
            r.wf(),
    {
        HandleTransfer { phase: TransferPhase::Idle, sent_count: 0, received_count: 0 }
    }

    /// Step one: the data envelope is written before any handle moves.
    pub fn note_data_sent(&mut self)
        requires
            old(self).phase == TransferPhase::Idle,
        ensures
            final(self).phase == TransferPhase::DataSent,
            final(self).sent_count == old(self).sent_count,
            final(self).received_count == old(self).received_count,
            old(self).wf() ==> final(self).wf(),
    {
        self.phase = TransferPhase::DataSent;
    }

    /// Step two: the handles follow as ancillary data.
    pub fn note_handles_sent(&mut self, count: usize)
        requires
            old(self).phase == TransferPhase::DataSent,
        ensures
            final(self).phase == TransferPhase::HandlesSent,
            final(self).sent_count == count,
            final(self).received_count == old(self).received_count,
            final(self).wf(),
    {
        self.phase = TransferPhase::HandlesSent;
        self.sent_count = count;
    }

    /// The receiver takes custody of every handle the ancillary message
    /// carried; a count that does not match what was sent is a protocol
    /// error and the transfer stays where it was.
    pub fn note_handles_received(&mut self, count: usize) -> (r: Result<(), IpcError>)
        requires
            old(self).phase == TransferPhase::HandlesSent,
        ensures
            r is Ok <==> count == old(self).sent_count,
            r is Ok ==> final(self).phase == TransferPhase::HandlesReceived && final(self).received_count == count && final(self).sent_count == old(self).sent_count && final(self).wf(),
            r is Err ==> *final(self) == *old(self) && r->Err_0 == IpcError::UnexpectedResult,
    {
        if count == self.sent_count {
            self.phase = TransferPhase::HandlesReceived;
            self.received_count = count;
            Ok(())
        } else {
            Err(IpcError::UnexpectedResult)
        }
    }

    /// Step three: the receiver's one-byte acknowledgment reaches the
    /// sender.
    pub fn note_ack_received(&mut self)
        requires
            old(self).phase == TransferPhase::HandlesReceived,
            old(self).wf(),
        ensures
            final(self).phase == TransferPhase::AckReceived,
            final(self).sent_count == old(self).sent_count,
            final(self).received_count == old(self).received_count,
            final(self).wf(),
    {
        self.phase = TransferPhase::AckReceived;
    }

    /// Whether the sender may now drop its copy of the handles.
    pub fn may_release(&self) -> (r: bool)
        ensures
            r == (self.phase == TransferPhase::AckReceived),
    {
        match self.phase {
            TransferPhase::AckReceived => true,
            _ => false,
        }
    }
}

/// The sender releases its copy of a handle only after the receiver's
/// acknowledgment, and by then the receiver holds exactly as many handles
/// as were sent.
pub proof fn lemma_release_only_after_ack(t: HandleTransfer)
    requires
        t.wf(),
        t.phase == TransferPhase::AckReceived,
    ensures
        t.received_count == t.sent_count,
{
}

} // verus!
