//! Retry and timeout decisions, shared by both state machines, and the
//! terminal errors a session can report.

use vstd::prelude::*;

verus! {

/// Why a session ended without delivering the data. Transient frame problems
/// (a bad checksum, a malformed header, stray bytes, a single timed-out read)
/// never surface here: the state machines absorb them and retry. Only these
/// terminal conditions escape to the caller.
#[derive(Clone, Copy, Debug, PartialEq, Eq)]
pub enum TransferError {
    /// The receiver's handshake never drew a first block.
    NoSender,
    /// The sender's wait for the receiver's opening byte ran out of attempts.
    NoReceiver,
    /// A block (or the end marker) could not be delivered within the retry budget.
    TooManyRetries,
    /// The peer sent the cancel byte.
    CanceledByPeer,
    /// The receiver saw a well-formed block number that is neither the expected
    /// one nor a duplicate of the block it accepted last.
    OutOfSequence,
    /// Accepting the incoming block would overflow the destination buffer.
    DestinationExhausted,
    /// The channel itself failed; always fatal and surfaced at once.
    UnderlyingIoError,
}

/// Whether a failed attempt is worth repeating.
#[derive(Clone, Copy, Debug, PartialEq, Eq)]
pub enum RetryDecision {
    /// Try the same block (or wait) once more.
    Retry,
    /// The budget is spent; the session must abort.
    GiveUp,
}

/// The timing and retry configuration of a session.
///
/// Timeouts and checksum failures on one block share a single budget of
/// `max_retries_per_block` attempts: a receiver cannot tell sender silence
/// from corrupted data without decoding it, so the two are not counted apart.
/// The two duration fields configure the transport (how long a single read
/// may block); the state machines themselves never consult a clock.
#[derive(Clone, Copy, Debug, PartialEq, Eq)]
pub struct RetryPolicy {
    /// How many times one block (or the end marker) may be retried.
    pub max_retries_per_block: u64,
    /// How many timed-out waits the opening handshake tolerates.
    pub max_handshake_attempts: u64,
    /// How long to wait for the next byte within a packet, in milliseconds.
    pub byte_timeout_ms: u64,
    /// How long to wait for the very first response, in milliseconds.
    pub initial_handshake_timeout_ms: u64,
    /// A ceiling on the events (reads, timeouts, stray bytes) one session
    /// driver will process before giving up, so a session over a noisy
    /// channel can never hang indefinitely.
    pub max_session_events: u64,
}

/// A policy whose counters leave room to be incremented.
pub open spec fn policy_wf(p: RetryPolicy) -> bool {
    &&& p.max_retries_per_block < u64::MAX
    &&& p.max_handshake_attempts < u64::MAX
}

impl RetryPolicy {
    /// The standard configuration: 10 retries per block, 10 handshake
    /// attempts, a 1-second byte timeout and a 10-second handshake timeout.
    pub fn new() -> (r: RetryPolicy)
        ensures
            r.max_retries_per_block == 10,
            r.max_handshake_attempts == 10,
            r.byte_timeout_ms == 1000,
            r.initial_handshake_timeout_ms == 10000,
            r.max_session_events == 1048576,
            policy_wf(r),
    {
        RetryPolicy {
            max_retries_per_block: 10,
            max_handshake_attempts: 10,
            byte_timeout_ms: 1000,
            initial_handshake_timeout_ms: 10000,
            max_session_events: 1048576,
        }
    }

    /// Decides whether a timed-out wait for a block's acknowledgement (or for
    /// the block itself) is retried: give up once `attempts` retries are spent.
    pub fn on_timeout(&self, attempts: u64) -> (r: RetryDecision)
        ensures
            r == (if attempts >= self.max_retries_per_block {
                RetryDecision::GiveUp
            } else {
                RetryDecision::Retry
            }),
    {
        if attempts >= self.max_retries_per_block {
            RetryDecision::GiveUp
        } else {
            RetryDecision::Retry
        }
    }

    /// Decides whether a failed checksum (or a malformed block header) is
    /// retried. Folded into the same budget as `on_timeout`.
    pub fn on_checksum_failure(&self, attempts: u64) -> (r: RetryDecision)
        ensures
            r == (if attempts >= self.max_retries_per_block {
                RetryDecision::GiveUp
            } else {
                RetryDecision::Retry
            }),
    {
        if attempts >= self.max_retries_per_block {
            RetryDecision::GiveUp
        } else {
            RetryDecision::Retry
        }
    }

    /// Decides whether a timed-out handshake wait is repeated: `used` counts
    /// the waits already spent, this one included.
    pub fn on_handshake_timeout(&self, used: u64) -> (r: RetryDecision)
        ensures
            r == (if used >= self.max_handshake_attempts {
                RetryDecision::GiveUp
            } else {
                RetryDecision::Retry
            }),
    {
        if used >= self.max_handshake_attempts {
            RetryDecision::GiveUp
        } else {
            RetryDecision::Retry
        }
    }
}

} // verus!
