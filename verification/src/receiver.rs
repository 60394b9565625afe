//! The receiver's half of a transfer: a state machine that fills a
//! fixed-capacity destination buffer from validated 128-byte blocks.
//!
//! Like the sender, the session never touches a channel: a driver reads the
//! wire, hands one event at a time to `step`, and sends back whatever bytes
//! `step` returns. The destination buffer is borrowed for each step; its
//! length is the fixed capacity and never changes.
//!
//! The contracts state the whole transition table. Three consequences worth
//! naming: re-sending the last accepted block is acknowledged again without
//! touching the buffer or the cursor, so a lost acknowledgement never
//! corrupts the destination; a block that would overflow the destination
//! aborts the session with `DestinationExhausted` before anything is
//! written, leaving every previously accepted block intact; and a cancel
//! byte aborts from every waiting state.

use vstd::prelude::*;

use crate::packet::{checksum_spec, wrap_next, wrap_next_spec, ACK, CAN, EOT, FILLER, NAK,
    PAYLOAD_LEN};
use crate::policy::{policy_wf, RetryDecision, RetryPolicy, TransferError};

verus! {

/// The length of the longest all-filler suffix of `s`.
pub open spec fn trailing_filler_len(s: Seq<u8>) -> nat
    decreases s.len(),
{
    if s.len() == 0 || s.last() != FILLER {
        0
    } else {
        1 + trailing_filler_len(s.drop_last())
    }
}

/// How many trailing filler bytes the receiver discounts when reporting a
/// byte count: the whole filler suffix, but never a full block's worth,
/// because a transmitted block always carries at least one source byte.
pub open spec fn capped_filler_strip(s: Seq<u8>) -> nat {
    if trailing_filler_len(s) > (PAYLOAD_LEN - 1) {
        (PAYLOAD_LEN - 1) as nat
    } else {
        trailing_filler_len(s)
    }
}

/// The byte count a receiver reports for the received bytes `s`: their
/// number, less the trailing padding of the final block.
pub open spec fn reported_count_spec(s: Seq<u8>) -> int {
    s.len() - capped_filler_strip(s)
}

/// A filler suffix is never longer than the sequence itself.
proof fn lemma_trailing_filler_le_len(s: Seq<u8>)
    ensures
        trailing_filler_len(s) <= s.len(),
    decreases s.len(),
{
    if s.len() != 0 && s.last() == FILLER {
        lemma_trailing_filler_le_len(s.drop_last());
    }
}

/// If the last `k` bytes of `s` are filler and the byte before them (when
/// there is one) is not, the filler suffix has length exactly `k`.
proof fn lemma_trailing_filler_exact(s: Seq<u8>, k: nat)
    requires
        k <= s.len(),
        forall|j: int| s.len() - k <= j < s.len() ==> #[trigger] s[j] == FILLER,
        k == s.len() || s[s.len() - 1 - k] != FILLER,
    ensures
        trailing_filler_len(s) == k,
    decreases k,
{
    if k == 0 {
    } else {
        assert(s[s.len() - 1] == FILLER);
        let t = s.drop_last();
        assert(forall|j: int| t.len() - (k - 1) <= j < t.len() ==> #[trigger] t[j] == FILLER);
        lemma_trailing_filler_exact(t, (k - 1) as nat);
    }
}

/// If the last `k` bytes of `s` are filler, the filler suffix has length at
/// least `k`.
proof fn lemma_trailing_filler_at_least(s: Seq<u8>, k: nat)
    requires
        k <= s.len(),
        forall|j: int| s.len() - k <= j < s.len() ==> #[trigger] s[j] == FILLER,
    ensures
        trailing_filler_len(s) >= k,
    decreases k,
{
    if k == 0 {
    } else {
        assert(s[s.len() - 1] == FILLER);
        let t = s.drop_last();
        assert(forall|j: int| t.len() - (k - 1) <= j < t.len() ==> #[trigger] t[j] == FILLER);
        lemma_trailing_filler_at_least(t, (k - 1) as nat);
    }
}

/// Where the receiver stands.
#[derive(Clone, Copy, Debug, PartialEq, Eq)]
pub enum RxState {
    /// Requesting, bounded by the handshake budget, that the sender start:
    /// the receiver speaks first, repeating its negotiation byte on every
    /// timed-out wait.
    AwaitingStart { attempts: u64 },
    /// At least one full block still fits; waiting for the block numbered
    /// `expected`, a duplicate of the last accepted block, or the end marker.
    AwaitingBlock { expected: u8 },
    /// Less than one full block of capacity remains, so only the end marker,
    /// a duplicate, or a cancel can end the session cleanly; a fresh block
    /// would overflow the destination.
    AwaitingEotOrBlock { expected: u8 },
    /// The sender's end marker was acknowledged; `count` is the reported
    /// byte count, trailing padding already discounted.
    Completed { count: usize },
    /// The session failed; `reason` says how.
    Aborted { reason: TransferError },
}

/// One observation a driver hands the receiver.
pub enum RxEvent {
    /// A single byte read while waiting for a packet to start, when it is
    /// not the start-of-block byte: a control byte or line noise.
    Control { byte: u8 },
    /// The body of a data block: the bytes that followed a start-of-block
    /// byte, split into their fields. The payload must hold 128 bytes.
    Frame { block: u8, complement: u8, payload: Vec<u8>, checksum: u8 },
    /// No byte arrived within the timeout.
    TimedOut,
    /// The channel reported a failure; always fatal.
    ChannelFailed,
}

/// A well-formed event: a frame event carries exactly 128 payload bytes.
pub open spec fn rx_event_wf(ev: RxEvent) -> bool {
    ev matches RxEvent::Frame { payload, .. } ==> payload@.len() == PAYLOAD_LEN
}

/// States in which the receiver consumes an event.
pub open spec fn rx_is_waiting(s: RxState) -> bool {
    ||| s is AwaitingStart
    ||| s is AwaitingBlock
    ||| s is AwaitingEotOrBlock
}

/// The receiver's side of one transfer.
pub struct ReceiverSession {
    /// Where the receiver stands.
    pub state: RxState,
    /// The number of the block accepted last; 0 before the first block,
    /// since 0 is never a real block number. Used to recognise and
    /// re-acknowledge a duplicate retransmission.
    pub last_accepted: u8,
    /// Destination bytes filled so far; always a multiple of 128.
    pub write_cursor: usize,
    /// Timeouts and rejected frames charged against the current block's
    /// retry budget; reset when a block is accepted.
    pub block_attempts: u64,
    /// The session's retry and timeout configuration.
    pub policy: RetryPolicy,
}

impl ReceiverSession {
    /// The block number the receiver will accept next.
    pub open spec fn expected_spec(self) -> u8 {
        wrap_next_spec(self.last_accepted)
    }

    /// A well-formed receiver for a destination of `capacity` bytes: the
    /// cursor stays inside the destination, the waiting state matches how
    /// much room remains, the expected block number always trails the last
    /// accepted one by exactly one, and the retry counters stay within the
    /// policy's budgets.
    pub open spec fn wf(self, capacity: nat) -> bool {
        &&& policy_wf(self.policy)
        &&& self.write_cursor <= capacity
        &&& self.block_attempts <= self.policy.max_retries_per_block
        &&& match self.state {
            RxState::AwaitingStart { attempts } => self.write_cursor == 0 && self.last_accepted
                == 0 && attempts <= self.policy.max_handshake_attempts,
            RxState::AwaitingBlock { expected } => expected == self.expected_spec()
                && self.last_accepted != 0 && self.write_cursor + PAYLOAD_LEN <= capacity,
            RxState::AwaitingEotOrBlock { expected } => expected == self.expected_spec()
                && self.last_accepted != 0 && capacity < self.write_cursor + PAYLOAD_LEN,
            RxState::Completed { count } => count <= self.write_cursor,
            RxState::Aborted { reason } => true,
        }
    }

    /// A fresh receiver, about to request that the sender start.
    pub fn new(policy: RetryPolicy) -> (r: ReceiverSession)
        requires
            policy_wf(policy),
        ensures
            r.state == (RxState::AwaitingStart { attempts: 0 }),
            r.last_accepted == 0,
            r.write_cursor == 0,
            r.block_attempts == 0,
            r.policy == policy,
            forall|capacity: nat| r.wf(capacity),
    {
        ReceiverSession {
            state: RxState::AwaitingStart { attempts: 0 },
            last_accepted: 0,
            write_cursor: 0,
            block_attempts: 0,
            policy,
        }
    }

    /// The negotiation byte this receiver opens with: it requests
    /// additive-checksum mode, and doubles as the request to (re)transmit.
    pub fn handshake_request(&self) -> (r: u8)
        ensures
            r == NAK,
    {
        NAK
    }

    /// True once the session has ended, in success or failure.
    pub fn is_terminal(&self) -> (r: bool)
        ensures
            r == (self.state is Completed || self.state is Aborted),
    {
        match self.state {
            RxState::Completed { .. } => true,
            RxState::Aborted { .. } => true,
            _ => false,
        }
    }

    /// The session's result: the reported byte count, the error it aborted
    /// with, or nothing while it is still running.
    pub fn outcome(&self) -> (r: Option<Result<usize, TransferError>>)
        ensures
            self.state matches RxState::Completed { count } ==> r == Some(
                Ok::<usize, TransferError>(count),
            ),
            self.state matches RxState::Aborted { reason } ==> r == Some(
                Err::<usize, TransferError>(reason),
            ),
            !(self.state is Completed || self.state is Aborted) ==> r is None,
    {
        match self.state {
            RxState::Completed { count } => Some(Ok(count)),
            RxState::Aborted { reason } => Some(Err(reason)),
            _ => None,
        }
    }

    /// The byte count to report for what has been received: the filled
    /// bytes, less the trailing padding of the final block.
    fn stripped_count(&self, dest: &Vec<u8>) -> (r: usize)
        requires
            self.write_cursor <= dest@.len(),
        ensures
            r == reported_count_spec(dest@.subrange(0, self.write_cursor as int)),
            r <= self.write_cursor,
    {
        let ghost prefix = dest@.subrange(0, self.write_cursor as int);
        let mut strip: usize = 0;
        while strip < PAYLOAD_LEN - 1 && strip < self.write_cursor && dest[self.write_cursor - 1
            - strip] == FILLER
            invariant
                0 <= strip <= PAYLOAD_LEN - 1,
                strip <= self.write_cursor,
                self.write_cursor <= dest@.len(),
                prefix == dest@.subrange(0, self.write_cursor as int),
                forall|j: int|
                    self.write_cursor - strip <= j < self.write_cursor ==> #[trigger] prefix[j]
                        == FILLER,
            decreases PAYLOAD_LEN - strip,
        {
            strip = strip + 1;
        }
        proof {
            lemma_trailing_filler_le_len(prefix);
            if strip == PAYLOAD_LEN - 1 {
                lemma_trailing_filler_at_least(prefix, strip as nat);
            } else {
                lemma_trailing_filler_exact(prefix, strip as nat);
            }
        }
        self.write_cursor - strip
    }

    /// Charges a rejected frame (or a timed-out wait for one) against the
    /// current block's retry budget: answer with a negative acknowledgement
    /// while budget remains, abort with `TooManyRetries` once it is spent.
    /// `nak` says whether the rejection is answered on the wire.
    fn reject(&mut self, nak: bool) -> (out: Vec<u8>)
        requires
            policy_wf(old(self).policy),
            old(self).block_attempts <= old(self).policy.max_retries_per_block,
        ensures
            final(self).last_accepted == old(self).last_accepted,
            final(self).write_cursor == old(self).write_cursor,
            final(self).policy == old(self).policy,
            final(self).block_attempts <= old(self).block_attempts + 1,
            old(self).block_attempts >= old(self).policy.max_retries_per_block ==> final(self).state == (RxState::Aborted { reason: TransferError::TooManyRetries }) && out@
                == Seq::<u8>::empty() && final(self).block_attempts == old(self).block_attempts,
            old(self).block_attempts < old(self).policy.max_retries_per_block ==> final(self).state
                == old(self).state && final(self).block_attempts == old(self).block_attempts + 1
                && out@ == (if nak {
                seq![NAK]
            } else {
                Seq::<u8>::empty()
            }),
    {
        let decision = if nak {
            self.policy.on_checksum_failure(self.block_attempts)
        } else {
            self.policy.on_timeout(self.block_attempts)
        };
        match decision {
            RetryDecision::GiveUp => {
                self.state = RxState::Aborted { reason: TransferError::TooManyRetries };
                Vec::new()
            },
            RetryDecision::Retry => {
                self.block_attempts = self.block_attempts + 1;
                if nak {
                    vec![NAK]
                } else {
                    Vec::new()
                }
            },
        }
    }

    /// Consumes one event in a waiting state; `dest` is the destination
    /// buffer, whose length is the transfer's fixed capacity.
    ///
    /// The contract is the receiver's whole transition table. In particular:
    /// a cancel byte aborts from every waiting state with `CanceledByPeer`;
    /// the end marker completes the session and reports the received bytes
    /// less the final block's padding; an expected, well-formed block is
    /// copied into the destination at the cursor and acknowledged — unless
    /// it would overflow the remaining capacity, which aborts with
    /// `DestinationExhausted` before anything is written; a duplicate of the
    /// last accepted block is re-acknowledged without touching the buffer,
    /// the cursor, or the state; a corrupt or malformed frame is answered
    /// with a negative acknowledgement until the block's retry budget is
    /// spent; and any other well-formed block number aborts with
    /// `OutOfSequence`.
    pub fn step(&mut self, dest: &mut Vec<u8>, ev: RxEvent) -> (out: Vec<u8>)
        requires
            old(self).wf(old(dest)@.len() as nat),
            rx_is_waiting(old(self).state),
            rx_event_wf(ev),
        ensures
            final(self).wf(final(dest)@.len() as nat),
            final(dest)@.len() == old(dest)@.len(),
            final(self).policy == old(self).policy,
            // a cancel byte aborts from every waiting state
            ev == (RxEvent::Control { byte: CAN }) ==> final(self).state == (RxState::Aborted {
                reason: TransferError::CanceledByPeer,
            }) && final(dest)@ == old(dest)@ && out@ == Seq::<u8>::empty(),
            // the end marker is acknowledged and completes the session
            ev == (RxEvent::Control { byte: EOT }) ==> (final(self).state matches
                RxState::Completed { count } && count == reported_count_spec(
                old(dest)@.subrange(0, old(self).write_cursor as int),
            )) && final(dest)@ == old(dest)@ && final(self).write_cursor == old(self).write_cursor
                && out@ == seq![ACK],
            // any other single byte is noise: nothing changes
            (ev matches RxEvent::Control { byte } && byte != CAN && byte != EOT) ==> *final(self)
                == *old(self) && final(dest)@ == old(dest)@ && out@ == Seq::<u8>::empty(),
            // a channel failure is fatal at once
            ev is ChannelFailed ==> final(self).state == (RxState::Aborted {
                reason: TransferError::UnderlyingIoError,
            }) && final(dest)@ == old(dest)@ && out@ == Seq::<u8>::empty(),
            // a timed-out handshake wait repeats the negotiation byte until
            // the handshake budget is spent
            old(self).state matches RxState::AwaitingStart { attempts } ==> (ev is TimedOut
                ==> final(dest)@ == old(dest)@ && final(self).write_cursor == 0 && (if attempts + 1
                >= old(self).policy.max_handshake_attempts {
                final(self).state == (RxState::Aborted { reason: TransferError::NoSender }) && out@
                    == Seq::<u8>::empty()
            } else {
                final(self).state == (RxState::AwaitingStart { attempts: (attempts + 1) as u64 })
                    && out@ == seq![NAK]
            })),
            // a timed-out wait for a block stays silent — the sender owns the
            // retransmission timer — until the block's retry budget is spent
            (old(self).state is AwaitingBlock || old(self).state is AwaitingEotOrBlock) && ev
                is TimedOut ==> final(dest)@ == old(dest)@ && final(self).write_cursor == old(self).write_cursor && final(self).last_accepted == old(self).last_accepted && out@ == Seq::<
                u8,
            >::empty() && (if old(self).block_attempts >= old(self).policy.max_retries_per_block {
                final(self).state == (RxState::Aborted { reason: TransferError::TooManyRetries })
            } else {
                final(self).state == old(self).state && final(self).block_attempts == old(self).block_attempts + 1
            }),
            // a frame whose block number is inconsistent, or whose checksum
            // does not match, is refused with a negative acknowledgement
            // until the block's retry budget is spent
            ev matches RxEvent::Frame { block, complement, payload, checksum } ==> ((block
                + complement != 255 || block == 0 || (block == old(self).expected_spec()
                && checksum_spec(payload@) != checksum)) ==> final(dest)@ == old(dest)@ && final(self).write_cursor == old(self).write_cursor && final(self).last_accepted == old(self).last_accepted && (if old(self).block_attempts
                >= old(self).policy.max_retries_per_block {
                final(self).state == (RxState::Aborted { reason: TransferError::TooManyRetries })
                    && out@ == Seq::<u8>::empty()
            } else {
                final(self).state == old(self).state && final(self).block_attempts == old(self).block_attempts + 1 && out@ == seq![NAK]
            })),
            // the expected block, intact: would it overflow, the session
            // aborts untouched; otherwise it is copied in and acknowledged
            ev matches RxEvent::Frame { block, complement, payload, checksum } ==> ((block
                + complement == 255 && block != 0 && block == old(self).expected_spec()
                && checksum_spec(payload@) == checksum) ==> (if old(dest)@.len() < old(self).write_cursor + PAYLOAD_LEN {
                final(self).state == (RxState::Aborted {
                    reason: TransferError::DestinationExhausted,
                }) && final(dest)@ == old(dest)@ && final(self).write_cursor == old(self).write_cursor && final(self).last_accepted == old(self).last_accepted && out@
                    == Seq::<u8>::empty()
            } else {
                final(dest)@ == old(dest)@.subrange(0, old(self).write_cursor as int) + payload@
                    + old(dest)@.subrange(
                    old(self).write_cursor + PAYLOAD_LEN,
                    old(dest)@.len() as int,
                ) && final(self).write_cursor == old(self).write_cursor + PAYLOAD_LEN && final(self).last_accepted == block && final(self).block_attempts == 0 && out@ == seq![ACK]
                    && final(self).state == (if final(self).write_cursor + PAYLOAD_LEN <= old(dest)@.len() {
                    RxState::AwaitingBlock { expected: wrap_next_spec(block) }
                } else {
                    RxState::AwaitingEotOrBlock { expected: wrap_next_spec(block) }
                })
            })),
            // a duplicate of the last accepted block: the sender missed the
            // acknowledgement, so acknowledge again and change nothing
            ev matches RxEvent::Frame { block, complement, payload, checksum } ==> ((block
                + complement == 255 && block != 0 && block != old(self).expected_spec() && block
                == old(self).last_accepted && old(self).last_accepted != 0) ==> *final(self)
                == *old(self) && final(dest)@ == old(dest)@ && out@ == seq![ACK]),
            // any other well-formed block number means the peers are out of
            // step beyond repair
            ev matches RxEvent::Frame { block, complement, payload, checksum } ==> ((block
                + complement == 255 && block != 0 && block != old(self).expected_spec() && !(block
                == old(self).last_accepted && old(self).last_accepted != 0)) ==> final(self).state
                == (RxState::Aborted { reason: TransferError::OutOfSequence }) && final(dest)@
                == old(dest)@ && final(self).write_cursor == old(self).write_cursor && out@
                == Seq::<u8>::empty()),
    {
        match ev {
            RxEvent::ChannelFailed => {
                self.state = RxState::Aborted { reason: TransferError::UnderlyingIoError };
                Vec::new()
            },
            RxEvent::TimedOut => {
                let st = self.state;
                match st {
                    RxState::AwaitingStart { attempts } => {
                        match self.policy.on_handshake_timeout(attempts + 1) {
                            RetryDecision::GiveUp => {
                                self.state = RxState::Aborted { reason: TransferError::NoSender };
                                Vec::new()
                            },
                            RetryDecision::Retry => {
                                self.state = RxState::AwaitingStart { attempts: attempts + 1 };
                                vec![NAK]
                            },
                        }
                    },
                    _ => self.reject(false),
                }
            },
            RxEvent::Control { byte } => {
                if byte == CAN {
                    self.state = RxState::Aborted { reason: TransferError::CanceledByPeer };
                    Vec::new()
                } else if byte == EOT {
                    let count = self.stripped_count(dest);
                    self.state = RxState::Completed { count };
                    vec![ACK]
                } else {
                    Vec::new()
                }
            },
            RxEvent::Frame { block, complement, payload, checksum } => {
                if block == 0 || complement != 255 - block {
                    return self.reject(true);
                }
                let expected = wrap_next(self.last_accepted);
                if block == expected {
                    let cks = crate::packet::compute_checksum(&payload);
                    if cks != checksum {
                        return self.reject(true);
                    }
                    if dest.len() - self.write_cursor < PAYLOAD_LEN {
                        self.state = RxState::Aborted {
                            reason: TransferError::DestinationExhausted,
                        };
                        return Vec::new();
                    }
                    let mut i: usize = 0;
                    while i < PAYLOAD_LEN
                        invariant
                            0 <= i <= PAYLOAD_LEN,
                            payload@.len() == PAYLOAD_LEN,
                            dest@.len() <= usize::MAX,
                            self.write_cursor + PAYLOAD_LEN <= dest@.len(),
                            dest@.len() == old(dest)@.len(),
                            forall|j: int|
                                0 <= j < i ==> dest@[self.write_cursor + j] == payload@[j],
                            forall|j: int|
                                0 <= j < dest@.len() && !(self.write_cursor <= j < self.write_cursor
                                    + i) ==> dest@[j] == old(dest)@[j],
                        decreases PAYLOAD_LEN - i,
                    {
                        let idx = self.write_cursor + i;
                        dest.set(idx, payload[i]);
                        i = i + 1;
                    }
                    proof {
                        assert(dest@ =~= old(dest)@.subrange(0, self.write_cursor as int)
                            + payload@ + old(dest)@.subrange(
                            self.write_cursor + PAYLOAD_LEN,
                            old(dest)@.len() as int,
                        ));
                    }
                    self.write_cursor = self.write_cursor + PAYLOAD_LEN;
                    self.last_accepted = block;
                    self.block_attempts = 0;
                    let next = wrap_next(block);
                    if dest.len() - self.write_cursor >= PAYLOAD_LEN {
                        self.state = RxState::AwaitingBlock { expected: next };
                    } else {
                        self.state = RxState::AwaitingEotOrBlock { expected: next };
                    }
                    vec![ACK]
                } else if block == self.last_accepted && self.last_accepted != 0 {
                    vec![ACK]
                } else {
                    self.state = RxState::Aborted { reason: TransferError::OutOfSequence };
                    Vec::new()
                }
            },
        }
    }
}

} // verus!
