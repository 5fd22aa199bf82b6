//! Transport-session state and the decisions around the platform socket.
//!
//! The socket calls themselves — open, connect, send, receive, close — happen
//! outside the library. What is decided here: how a platform error code is
//! classified, when a close action is owed, how the process-wide networking
//! subsystem's lifetime is counted, and when enough bytes have arrived to form
//! one complete frame.

use vstd::prelude::*;
use crate::error::EdifierError;
use crate::message::MIN_FRAME_LEN;

verus! {

/// Platform code for a timed-out connection attempt.
pub const WSA_TIMEOUT_CODE: i32 = 10060;

/// Upper bound of one raw read from the socket.
pub const MAX_READ_LEN: usize = 256;

/// Whether a session currently owns a live stream connection.
#[derive(Debug, Clone, Copy, PartialEq, Eq, Structural)]
pub enum SessionState {
    Disconnected,
    Connected,
}

/// What one teardown request does: the state it leaves and whether the caller
/// owes the platform a socket close.
pub open spec fn spec_disconnect(state: SessionState) -> (SessionState, bool) {
    (SessionState::Disconnected, state is Connected)
}

/// The logical state of one transport session. The platform socket handle it
/// stands for lives with the caller; the session decides which socket actions
/// are owed.
pub struct Session {
    state: SessionState,
}

impl Session {
    /// The current state, for contracts.
    pub closed spec fn spec_state(&self) -> SessionState {
        self.state
    }

    /// A fresh session owns no connection yet.
    pub fn new() -> (session: Session)
        ensures
            session.spec_state() is Disconnected,
    {
        Session { state: SessionState::Disconnected }
    }

    /// Records that the stream connection was established.
    pub fn mark_connected(&mut self)
        requires
            old(self).spec_state() is Disconnected,
        ensures
            final(self).spec_state() is Connected,
    {
        self.state = SessionState::Connected;
    }

    /// Whether the session owns a live connection.
    pub fn is_connected(&self) -> (r: bool)
        ensures
            r == (self.spec_state() is Connected),
    {
        match self.state {
            SessionState::Connected => true,
            SessionState::Disconnected => false,
        }
    }

    /// Tears the session down. Callable in any state: the session always ends
    /// disconnected, and a socket close is owed only when a connection was
    /// live. Underlying close errors are the caller's to swallow: teardown is
    /// best-effort.
    pub fn disconnect(&mut self) -> (close_needed: bool)
        ensures
            (final(self).spec_state(), close_needed) == spec_disconnect(old(self).spec_state()),
    {
        let close_needed = self.is_connected();
        self.state = SessionState::Disconnected;
        close_needed
    }
}

/// Tearing down twice is harmless: after one teardown the session is
/// disconnected, and a second teardown keeps it so and owes no further close
/// action.
pub proof fn lemma_disconnect_idempotent(state: SessionState)
    ensures
        spec_disconnect(state).0 is Disconnected,
        spec_disconnect(spec_disconnect(state).0).0 is Disconnected,
        !spec_disconnect(spec_disconnect(state).0).1,
{
}

/// Classifies the platform error a failed connection attempt reported: the
/// timeout code becomes the timeout error, anything else keeps its code.
pub fn classify_connect_error(code: i32) -> (r: EdifierError)
    ensures
        code == WSA_TIMEOUT_CODE ==> r == EdifierError::ConnectTimeout,
        code != WSA_TIMEOUT_CODE ==> r == EdifierError::ConnectFailed(code),
{
    if code == WSA_TIMEOUT_CODE {
        EdifierError::ConnectTimeout
    } else {
        EdifierError::ConnectFailed(code)
    }
}

/// Reference count of the process-wide networking subsystem. Every connect
/// initializes the subsystem and every disconnect releases it, so the count
/// must tolerate repeated init and teardown within one process: teardown of an
/// idle subsystem stays idle.
pub struct NetSubsystem {
    active: u64,
}

impl NetSubsystem {
    /// How many initializations are currently outstanding, for contracts.
    pub closed spec fn spec_active(&self) -> u64 {
        self.active
    }

    /// Before any socket work the subsystem is idle.
    pub fn new() -> (subsystem: NetSubsystem)
        ensures
            subsystem.spec_active() == 0,
    {
        NetSubsystem { active: 0 }
    }

    /// How many initializations are currently outstanding.
    pub fn active_count(&self) -> (r: u64)
        ensures
            r == self.spec_active(),
    {
        self.active
    }

    /// One more initialization is outstanding.
    pub fn startup(&mut self)
        requires
            old(self).spec_active() < u64::MAX,
        ensures
            final(self).spec_active() == old(self).spec_active() + 1,
    {
        self.active = self.active + 1;
    }

    /// Releases one initialization. Safe under repeated invocation: on an idle
    /// subsystem it does nothing, and reports whether anything was released.
    pub fn cleanup(&mut self) -> (was_active: bool)
        ensures
            was_active == (old(self).spec_active() > 0),
            old(self).spec_active() > 0 ==> final(self).spec_active() == old(self).spec_active()
                - 1,
            old(self).spec_active() == 0 ==> final(self).spec_active() == 0,
    {
        if self.active > 0 {
            self.active = self.active - 1;
            true
        } else {
            false
        }
    }
}

/// How many bytes the frame that starts at the head of `buffered` occupies:
/// its length field plus the four fixed bytes around it. Meaningful once the
/// five fixed bytes are present.
pub open spec fn spec_frame_total_len(buffered: Seq<u8>) -> int {
    buffered[1] + 4
}

/// Whether the head of the buffer holds one complete frame.
pub open spec fn spec_frame_complete(buffered: Seq<u8>) -> bool {
    buffered.len() >= MIN_FRAME_LEN && buffered.len() >= spec_frame_total_len(buffered)
}

/// Reassembles frames out of a byte stream. A single bounded read may deliver
/// a frame in pieces or carry the start of the next one; the accumulator
/// buffers what arrived and hands out one complete frame at a time, keeping
/// any surplus for the next.
pub struct FrameAccumulator {
    buffered: Vec<u8>,
}

impl FrameAccumulator {
    /// The bytes received and not yet handed out, for contracts.
    pub closed spec fn spec_buffered(&self) -> Seq<u8> {
        self.buffered@
    }

    /// An empty accumulator.
    pub fn new() -> (accumulator: FrameAccumulator)
        ensures
            accumulator.spec_buffered() == Seq::<u8>::empty(),
    {
        FrameAccumulator { buffered: Vec::new() }
    }

    /// Appends the bytes one raw read delivered.
    pub fn push_bytes(&mut self, chunk: &[u8])
        ensures
            final(self).spec_buffered() == old(self).spec_buffered() + chunk@,
    {
        let mut i: usize = 0;
        while i < chunk.len()
            invariant
                i <= chunk@.len(),
                self.buffered@ == old(self).buffered@ + chunk@.take(i as int),
            decreases chunk@.len() - i,
        {
            self.buffered.push(chunk[i]);
            proof {
                assert(chunk@.take(i + 1) =~= chunk@.take(i as int).push(chunk@[i as int]));
            }
            i = i + 1;
        }
        proof {
            assert(chunk@.take(chunk@.len() as int) =~= chunk@);
        }
    }

    /// Removes and returns the frame at the head of the buffer once it is
    /// complete per its length field; surplus bytes stay buffered. Returns
    /// nothing while bytes are still missing.
    pub fn take_frame(&mut self) -> (r: Option<Vec<u8>>)
        ensures
            !spec_frame_complete(old(self).spec_buffered()) ==> {
                &&& r is None
                &&& final(self).spec_buffered() == old(self).spec_buffered()
            },
            spec_frame_complete(old(self).spec_buffered()) ==> {
                &&& r matches Some(frame) && frame@ == old(self).spec_buffered().take(
                    spec_frame_total_len(old(self).spec_buffered()),
                )
                &&& final(self).spec_buffered() == old(self).spec_buffered().skip(
                    spec_frame_total_len(old(self).spec_buffered()),
                )
            },
    {
        if self.buffered.len() < MIN_FRAME_LEN {
            return None;
        }
        let total = self.buffered[1] as usize + 4;
        if self.buffered.len() < total {
            return None;
        }
        let mut rest = self.buffered.split_off(total);
        core::mem::swap(&mut self.buffered, &mut rest);
        Some(rest)
    }
}

} // verus!
