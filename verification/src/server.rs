//! The broker's reactor bookkeeping: per-connection protocol state,
//! classification of readiness events, the connection set that only the
//! reactor thread touches, and the idle shutdown timer.
//!
//! The reactor itself is a readiness loop around an OS poller; what stands
//! here is every decision it takes between two waits, so that a peer that
//! disconnects mid-command costs exactly its own connection and nothing else.

use vstd::prelude::*;

use crate::ipc_commands::CommandMsg;

verus! {

/// The event key the listener is registered under; connection keys are the
/// indices into the connection set, which stay far below it.
pub const LISTENER_EVENT_KEY: usize = usize::MAX - 1;

/// The protocol state of one connection, from acceptance to close.
#[derive(Clone, Copy, Debug, PartialEq, Eq, Structural)]
pub enum ConnPhase {
    Accepted,
    AwaitingCommand,
    Decoding,
    Dispatching,
    SendingResult,
    TransferringHandles,
    AwaitingAck,
    Closed,
}

/// The edges a connection may take through its lifecycle: the command
/// cycle, the optional handle-transfer tail, and `Closed` reachable from
/// every state on a broken pipe or a fatal decode error.
pub open spec fn spec_phase_step_ok(from: ConnPhase, to: ConnPhase) -> bool {
    ||| to == ConnPhase::Closed
    ||| match (from, to) {
        (ConnPhase::Accepted, ConnPhase::AwaitingCommand) => true,
        (ConnPhase::AwaitingCommand, ConnPhase::Decoding) => true,
        (ConnPhase::AwaitingCommand, ConnPhase::AwaitingCommand) => true,
        (ConnPhase::Decoding, ConnPhase::Dispatching) => true,
        (ConnPhase::Dispatching, ConnPhase::SendingResult) => true,
        (ConnPhase::SendingResult, ConnPhase::TransferringHandles) => true,
        (ConnPhase::SendingResult, ConnPhase::AwaitingCommand) => true,
        (ConnPhase::TransferringHandles, ConnPhase::AwaitingAck) => true,
        (ConnPhase::AwaitingAck, ConnPhase::AwaitingCommand) => true,
        _ => false,
    }
}

/// Check one lifecycle edge; the reactor asserts this before it moves a
/// connection from one state to the next.
pub fn check_phase_step(from: ConnPhase, to: ConnPhase) -> (r: bool)
    ensures
        r == spec_phase_step_ok(from, to),
{
    if to == ConnPhase::Closed {
        return true;
    }
    match (from, to) {
        (ConnPhase::Accepted, ConnPhase::AwaitingCommand) => true,
        (ConnPhase::AwaitingCommand, ConnPhase::Decoding) => true,
        (ConnPhase::AwaitingCommand, ConnPhase::AwaitingCommand) => true,
        (ConnPhase::Decoding, ConnPhase::Dispatching) => true,
        (ConnPhase::Dispatching, ConnPhase::SendingResult) => true,
        (ConnPhase::SendingResult, ConnPhase::TransferringHandles) => true,
        (ConnPhase::SendingResult, ConnPhase::AwaitingCommand) => true,
        (ConnPhase::TransferringHandles, ConnPhase::AwaitingAck) => true,
        (ConnPhase::AwaitingAck, ConnPhase::AwaitingCommand) => true,
        _ => false,
    }
}

/// What one readiness event refers to.
#[derive(Clone, Copy, Debug, PartialEq, Eq, Structural)]
pub enum EventClass {
    /// The listener has a connection to accept.
    ListenerReady,
    /// The connection at this index has bytes to read.
    ConnectionReady(usize),
    /// The key names no current connection; the event is ignored.
    Stale,
}

/// Route one readiness event: the listener's own key means "accept", a key
/// inside the connection set names that connection, anything else is stale
/// and ignored rather than trusted.
pub fn classify_event(key: usize, conn_count: usize) -> (r: EventClass)
    ensures
        key == LISTENER_EVENT_KEY ==> r == EventClass::ListenerReady,
        key != LISTENER_EVENT_KEY && key < conn_count ==> r == EventClass::ConnectionReady(key),
        key != LISTENER_EVENT_KEY && key >= conn_count ==> r == EventClass::Stale,
{
    if key == LISTENER_EVENT_KEY {
        EventClass::ListenerReady
    } else if key < conn_count {
        EventClass::ConnectionReady(key)
    } else {
        EventClass::Stale
    }
}

/// What reading one connection produced, after the channel layer has
/// classified the stream.
pub enum RecvStatus {
    /// The peer closed its end, possibly mid-command.
    ClosedByPeer,
    /// No whole command yet; not an error.
    NothingYet,
    /// One whole command arrived.
    Command(CommandMsg),
}

/// What the reactor does with one connection after a read attempt: a closed
/// peer costs exactly that connection, anything else keeps it; only a whole
/// command is dispatched.
pub fn connection_step(status: RecvStatus) -> (r: (bool, Option<CommandMsg>))
    ensures
        (status matches RecvStatus::ClosedByPeer) ==> r.0 && r.1 is None,
        (status matches RecvStatus::NothingYet) ==> !r.0 && r.1 is None,
        (status matches RecvStatus::Command(c) ==> !r.0 && r.1 == Some(c)),
{
    match status {
        RecvStatus::ClosedByPeer => (true, None),
        RecvStatus::NothingYet => (false, None),
        RecvStatus::Command(c) => (false, Some(c)),
    }
}

/// Drop one connection from the set, by index: the connection is gone and
/// every other connection is still there, in its old order, so the broker
/// goes on serving them.
pub fn remove_connection(conns: &mut Vec<u64>, idx: usize)
    requires
        idx < old(conns)@.len(),
    ensures
        final(conns)@.len() == old(conns)@.len() - 1,
        forall|k: int| 0 <= k < idx ==> final(conns)@[k] == old(conns)@[k],
        forall|k: int| idx <= k < final(conns)@.len() ==> final(conns)@[k] == old(conns)@[k + 1],
{
    conns.remove(idx);
}

/// Whether the reactor stops: on the external stop flag, or once the
/// connection set has stayed empty past the idle deadline.
pub fn should_stop(conn_count: usize, now_millis: u64, idle_deadline_millis: u64, stop_flag: bool)
    -> (r: bool)
    ensures
        r == (stop_flag || (conn_count == 0 && now_millis > idle_deadline_millis)),
{
    stop_flag || (conn_count == 0 && now_millis > idle_deadline_millis)
}

/// The idle deadline after one reactor pass: pushed out while any
/// connection is open, left alone while the set is empty so that an idle
/// broker eventually stops instead of waiting forever for peers.
pub fn next_idle_deadline(
    conn_count: usize,
    now_millis: u64,
    wait_millis: u64,
    current_deadline_millis: u64,
) -> (r: u64)
    requires
        now_millis + wait_millis <= u64::MAX,
    ensures
        conn_count == 0 ==> r == current_deadline_millis,
        conn_count > 0 ==> r == now_millis + wait_millis,
{
    if conn_count == 0 {
        current_deadline_millis
    } else {
        now_millis + wait_millis
    }
}

} // verus!
