//! The sender's half of a transfer: a state machine that turns a source
//! buffer into acknowledged 128-byte blocks.
//!
//! The session never reads or writes a channel itself. A driver feeds it one
//! event at a time (`step`), asks it for the bytes it owes the wire (`pump`),
//! and sends whatever comes back. Every transition is stated exactly in the
//! contracts, so a driver knows the session's whole behaviour without reading
//! its body.

use vstd::prelude::*;

use crate::packet::{
    data_frame_spec, encode, wrap_next_spec, Packet, ACK, CAN, EOT, FILLER, NAK, PAYLOAD_LEN,
};
use crate::policy::{policy_wf, RetryPolicy, TransferError};

verus! {

/// Where the sender stands. The two `Sending` states owe bytes to the wire
/// (collected by `pump`); the three `Awaiting` states consume one event each
/// (`step`); `Completed` and `Aborted` are final.
#[derive(Clone, Copy, Debug, PartialEq, Eq)]
pub enum TxState {
    /// Waiting, bounded by the handshake budget, for the receiver to speak
    /// first with its negotiation byte.
    AwaitingStart { attempts: u64 },
    /// The block numbered `block` is due on the wire.
    SendingBlock { block: u8 },
    /// The block numbered `block` is on the wire; waiting for its
    /// acknowledgement. `attempts` counts the retries already spent on it.
    AwaitingAck { block: u8, attempts: u64 },
    /// Every source byte is acknowledged; the end marker is due on the wire.
    SendingEot,
    /// The end marker is on the wire; waiting for its acknowledgement.
    AwaitingEotAck { attempts: u64 },
    /// The receiver acknowledged the end marker.
    Completed,
    /// The session failed; `reason` says how.
    Aborted { reason: TransferError },
}

/// One observation a driver hands the sender: a byte arrived, the read timed
/// out, or the channel itself failed.
#[derive(Clone, Copy, Debug, PartialEq, Eq)]
pub enum TxEvent {
    /// A byte arrived within the timeout.
    Byte { value: u8 },
    /// No byte arrived within the timeout.
    TimedOut,
    /// The channel reported a failure; always fatal.
    ChannelFailed,
}

/// The sender's side of one transfer. `cursor` counts the source bytes the
/// receiver has acknowledged; it never moves backwards and never counts a
/// byte twice, so a completed session has delivered the source exactly.
pub struct SenderSession {
    /// Where the sender stands.
    pub state: TxState,
    /// Source bytes acknowledged so far.
    pub cursor: usize,
    /// The session's retry and timeout configuration.
    pub policy: RetryPolicy,
}

/// States in which the sender consumes an event.
pub open spec fn tx_is_waiting(s: TxState) -> bool {
    ||| s is AwaitingStart
    ||| s is AwaitingAck
    ||| s is AwaitingEotAck
}

/// States in which the sender owes bytes to the wire.
pub open spec fn tx_is_sending(s: TxState) -> bool {
    s is SendingBlock || s is SendingEot
}

/// States that end the session.
pub open spec fn tx_is_terminal(s: TxState) -> bool {
    s is Completed || s is Aborted
}

/// How many source bytes the block at `cursor` carries: a full 128, or
/// whatever remains of the source.
pub open spec fn chunk_len_spec(len: int, cursor: int) -> int {
    if len - cursor >= PAYLOAD_LEN {
        PAYLOAD_LEN as int
    } else {
        len - cursor
    }
}

/// The 128 payload bytes of the block at `cursor`: the next source bytes,
/// padded with the filler byte when fewer than 128 remain.
pub open spec fn padded_chunk_spec(src: Seq<u8>, cursor: int) -> Seq<u8> {
    Seq::new(
        PAYLOAD_LEN as nat,
        |i: int|
            if cursor + i < src.len() {
                src[cursor + i]
            } else {
                FILLER
            },
    )
}

impl SenderSession {
    /// A well-formed sender for a source of `len` bytes: the cursor stays
    /// inside the source, a block is only ever in flight while source bytes
    /// remain, the end marker only goes out once everything is acknowledged,
    /// and the retry counters stay within the policy's budgets.
    pub open spec fn wf(self, len: nat) -> bool {
        &&& policy_wf(self.policy)
        &&& self.cursor <= len
        &&& match self.state {
            TxState::AwaitingStart { attempts } => self.cursor == 0 && attempts
                <= self.policy.max_handshake_attempts,
            TxState::SendingBlock { block } => block != 0 && self.cursor < len,
            TxState::AwaitingAck { block, attempts } => block != 0 && self.cursor < len
                && attempts <= self.policy.max_retries_per_block,
            TxState::SendingEot => self.cursor == len,
            TxState::AwaitingEotAck { attempts } => self.cursor == len && attempts
                <= self.policy.max_retries_per_block,
            TxState::Completed => self.cursor == len,
            TxState::Aborted { reason } => true,
        }
    }

    /// A fresh sender, waiting for the receiver's opening byte.
    pub fn new(policy: RetryPolicy) -> (r: SenderSession)
        requires
            policy_wf(policy),
        ensures
            r.state == (TxState::AwaitingStart { attempts: 0 }),
            r.cursor == 0,
            r.policy == policy,
            forall|len: nat| r.wf(len),
    {
        SenderSession { state: TxState::AwaitingStart { attempts: 0 }, cursor: 0, policy }
    }

    /// True when the sender owes bytes to the wire (`pump` is due).
    pub fn is_sending(&self) -> (r: bool)
        ensures
            r == tx_is_sending(self.state),
    {
        match self.state {
            TxState::SendingBlock { .. } => true,
            TxState::SendingEot => true,
            _ => false,
        }
    }

    /// True once the session has ended, in success or failure.
    pub fn is_terminal(&self) -> (r: bool)
        ensures
            r == tx_is_terminal(self.state),
    {
        match self.state {
            TxState::Completed => true,
            TxState::Aborted { .. } => true,
            _ => false,
        }
    }

    /// The session's result: the count of source bytes delivered, the error
    /// it aborted with, or nothing while it is still running.
    pub fn outcome(&self) -> (r: Option<Result<usize, TransferError>>)
        ensures
            self.state is Completed ==> r == Some(Ok::<usize, TransferError>(self.cursor)),
            self.state matches TxState::Aborted { reason } ==> r == Some(
                Err::<usize, TransferError>(reason),
            ),
            !tx_is_terminal(self.state) ==> r is None,
    {
        match self.state {
            TxState::Completed => Some(Ok(self.cursor)),
            TxState::Aborted { reason } => Some(Err(reason)),
            _ => None,
        }
    }

    /// Builds the wire bytes of the block numbered `block`, carrying the
    /// source bytes at the cursor, padded to 128 with the filler byte.
    fn build_frame(&self, source: &Vec<u8>, block: u8) -> (out: Vec<u8>)
        requires
            self.cursor < source@.len(),
            block != 0,
        ensures
            out@ == data_frame_spec(block, padded_chunk_spec(source@, self.cursor as int)),
    {
        let remaining = source.len() - self.cursor;
        let mut payload: Vec<u8> = Vec::new();
        let mut i: usize = 0;
        while i < PAYLOAD_LEN
            invariant
                0 <= i <= PAYLOAD_LEN,
                self.cursor < source@.len(),
                source@.len() <= usize::MAX,
                remaining == source@.len() - self.cursor,
                payload@.len() == i,
                forall|j: int| 0 <= j < i ==> payload@[j] == padded_chunk_spec(
                    source@,
                    self.cursor as int,
                )[j],
            decreases PAYLOAD_LEN - i,
        {
            if i < remaining {
                payload.push(source[self.cursor + i]);
            } else {
                payload.push(FILLER);
            }
            i = i + 1;
        }
        proof {
            assert(payload@ =~= padded_chunk_spec(source@, self.cursor as int));
        }
        let packet = Packet::Data { block_number: block, payload };
        encode(&packet)
    }

    /// Emits the bytes the sender owes the wire: the current block's frame
    /// from `SendingBlock`, or the end marker from `SendingEot`. The sender
    /// then waits for the matching acknowledgement with a fresh retry budget.
    pub fn pump(&mut self, source: &Vec<u8>) -> (out: Vec<u8>)
        requires
            old(self).wf(source@.len() as nat),
            tx_is_sending(old(self).state),
        ensures
            final(self).wf(source@.len() as nat),
            final(self).cursor == old(self).cursor,
            final(self).policy == old(self).policy,
            old(self).state matches TxState::SendingBlock { block } ==> out@ == data_frame_spec(
                block,
                padded_chunk_spec(source@, old(self).cursor as int),
            ) && final(self).state == (TxState::AwaitingAck { block, attempts: 0 }),
            old(self).state is SendingEot ==> out@ == seq![EOT] && final(self).state == (
            TxState::AwaitingEotAck { attempts: 0 }),
    {
        let st = self.state;
        match st {
            TxState::SendingBlock { block } => {
                let out = self.build_frame(source, block);
                self.state = TxState::AwaitingAck { block, attempts: 0 };
                out
            },
            _ => {
                self.state = TxState::AwaitingEotAck { attempts: 0 };
                vec![EOT]
            },
        }
    }

    /// Consumes one event in a waiting state.
    ///
    /// The contract is the sender's whole transition table. In particular:
    /// a cancel byte aborts from every waiting state with `CanceledByPeer`
    /// and nothing more goes on the wire; an acknowledged block advances the
    /// cursor by exactly that block's source bytes; a negative
    /// acknowledgement or timeout within the retry budget resends the
    /// identical block, and past the budget aborts with `TooManyRetries`;
    /// a byte with no protocol meaning changes nothing.
    pub fn step(&mut self, source: &Vec<u8>, ev: TxEvent) -> (out: Vec<u8>)
        requires
            old(self).wf(source@.len() as nat),
            tx_is_waiting(old(self).state),
        ensures
            final(self).wf(source@.len() as nat),
            final(self).policy == old(self).policy,
            // cancellation aborts from every waiting state
            ev == (TxEvent::Byte { value: CAN }) ==> final(self).state == (TxState::Aborted {
                reason: TransferError::CanceledByPeer,
            }) && final(self).cursor == old(self).cursor && out@ == Seq::<u8>::empty(),
            // a channel failure is fatal at once
            ev is ChannelFailed ==> final(self).state == (TxState::Aborted {
                reason: TransferError::UnderlyingIoError,
            }) && final(self).cursor == old(self).cursor && out@ == Seq::<u8>::empty(),
            // waiting for the receiver's opening byte
            old(self).state is AwaitingStart && ev == (TxEvent::Byte { value: NAK }) ==> final(self).cursor == 0 && out@ == Seq::<u8>::empty() && final(self).state == (if source@.len()
                == 0 {
                TxState::SendingEot
            } else {
                TxState::SendingBlock { block: 1 }
            }),
            old(self).state matches TxState::AwaitingStart { attempts } ==> (ev is TimedOut
                ==> out@ == Seq::<u8>::empty() && final(self).cursor == 0 && final(self).state == (
            if attempts + 1 >= old(self).policy.max_handshake_attempts {
                TxState::Aborted { reason: TransferError::NoReceiver }
            } else {
                TxState::AwaitingStart { attempts: (attempts + 1) as u64 }
            })),
            old(self).state is AwaitingStart && (ev matches TxEvent::Byte { value } && value != NAK
                && value != CAN) ==> *final(self) == *old(self) && out@ == Seq::<u8>::empty(),
            // waiting for a block's acknowledgement
            old(self).state matches TxState::AwaitingAck { block, attempts } ==> (ev == (
            TxEvent::Byte { value: ACK }) ==> out@ == Seq::<u8>::empty() && final(self).cursor
                == old(self).cursor + chunk_len_spec(
                source@.len() as int,
                old(self).cursor as int,
            ) && final(self).state == (if old(self).cursor + chunk_len_spec(
                source@.len() as int,
                old(self).cursor as int,
            ) < source@.len() {
                TxState::SendingBlock { block: wrap_next_spec(block) }
            } else {
                TxState::SendingEot
            })),
            old(self).state matches TxState::AwaitingAck { block, attempts } ==> ((ev == (
            TxEvent::Byte { value: NAK }) || ev is TimedOut) ==> final(self).cursor == old(
                self,
            ).cursor && (if attempts >= old(self).policy.max_retries_per_block {
                final(self).state == (TxState::Aborted { reason: TransferError::TooManyRetries })
                    && out@ == Seq::<u8>::empty()
            } else {
                final(self).state == (TxState::AwaitingAck {
                    block,
                    attempts: (attempts + 1) as u64,
                }) && out@ == data_frame_spec(
                    block,
                    padded_chunk_spec(source@, old(self).cursor as int),
                )
            })),
            old(self).state is AwaitingAck && (ev matches TxEvent::Byte { value } && value != ACK
                && value != NAK && value != CAN) ==> *final(self) == *old(self) && out@ == Seq::<
                u8,
            >::empty(),
            // waiting for the end marker's acknowledgement
            old(self).state is AwaitingEotAck && ev == (TxEvent::Byte { value: ACK }) ==> final(self).state == TxState::Completed && final(self).cursor == old(self).cursor && out@
                == Seq::<u8>::empty(),
            old(self).state matches TxState::AwaitingEotAck { attempts } ==> ((ev == (
            TxEvent::Byte { value: NAK }) || ev is TimedOut) ==> final(self).cursor == old(
                self,
            ).cursor && (if attempts >= old(self).policy.max_retries_per_block {
                final(self).state == (TxState::Aborted { reason: TransferError::TooManyRetries })
                    && out@ == Seq::<u8>::empty()
            } else {
                final(self).state == (TxState::AwaitingEotAck { attempts: (attempts + 1) as u64 })
                    && out@ == seq![EOT]
            })),
            old(self).state is AwaitingEotAck && (ev matches TxEvent::Byte { value } && value
                != ACK && value != NAK && value != CAN) ==> *final(self) == *old(self) && out@
                == Seq::<u8>::empty(),
    {
        match ev {
            TxEvent::ChannelFailed => {
                self.state = TxState::Aborted { reason: TransferError::UnderlyingIoError };
                Vec::new()
            },
            TxEvent::TimedOut => {
                let st = self.state;
                match st {
                    TxState::AwaitingStart { attempts } => {
                        match self.policy.on_handshake_timeout(attempts + 1) {
                            crate::policy::RetryDecision::GiveUp => {
                                self.state = TxState::Aborted {
                                    reason: TransferError::NoReceiver,
                                };
                            },
                            crate::policy::RetryDecision::Retry => {
                                self.state = TxState::AwaitingStart { attempts: attempts + 1 };
                            },
                        }
                        Vec::new()
                    },
                    TxState::AwaitingAck { block, attempts } => {
                        self.retry_block(source, block, attempts)
                    },
                    _ => self.retry_eot(),
                }
            },
            TxEvent::Byte { value } => {
                if value == CAN {
                    self.state = TxState::Aborted { reason: TransferError::CanceledByPeer };
                    return Vec::new();
                }
                let st = self.state;
                match st {
                    TxState::AwaitingStart { .. } => {
                        if value == NAK {
                            if source.len() == 0 {
                                self.state = TxState::SendingEot;
                            } else {
                                self.state = TxState::SendingBlock { block: 1 };
                            }
                        }
                        Vec::new()
                    },
                    TxState::AwaitingAck { block, attempts } => {
                        if value == ACK {
                            let remaining = source.len() - self.cursor;
                            let chunk = if remaining >= PAYLOAD_LEN {
                                PAYLOAD_LEN
                            } else {
                                remaining
                            };
                            self.cursor = self.cursor + chunk;
                            if self.cursor < source.len() {
                                self.state = TxState::SendingBlock {
                                    block: crate::packet::wrap_next(block),
                                };
                            } else {
                                self.state = TxState::SendingEot;
                            }
                            Vec::new()
                        } else if value == NAK {
                            self.retry_block(source, block, attempts)
                        } else {
                            Vec::new()
                        }
                    },
                    _ => {
                        if value == ACK {
                            self.state = TxState::Completed;
                            Vec::new()
                        } else if value == NAK {
                            self.retry_eot()
                        } else {
                            Vec::new()
                        }
                    },
                }
            },
        }
    }

    /// Resends the block in flight, or gives the retry budget up.
    fn retry_block(&mut self, source: &Vec<u8>, block: u8, attempts: u64) -> (out: Vec<u8>)
        requires
            old(self).wf(source@.len() as nat),
            old(self).state == (TxState::AwaitingAck { block, attempts }),
        ensures
            final(self).wf(source@.len() as nat),
            final(self).cursor == old(self).cursor,
            final(self).policy == old(self).policy,
            attempts >= old(self).policy.max_retries_per_block ==> final(self).state == (
            TxState::Aborted { reason: TransferError::TooManyRetries }) && out@ == Seq::<
                u8,
            >::empty(),
            attempts < old(self).policy.max_retries_per_block ==> final(self).state == (
            TxState::AwaitingAck { block, attempts: (attempts + 1) as u64 }) && out@
                == data_frame_spec(block, padded_chunk_spec(source@, old(self).cursor as int)),
    {
        match self.policy.on_timeout(attempts) {
            crate::policy::RetryDecision::GiveUp => {
                self.state = TxState::Aborted { reason: TransferError::TooManyRetries };
                Vec::new()
            },
            crate::policy::RetryDecision::Retry => {
                self.state = TxState::AwaitingAck { block, attempts: attempts + 1 };
                self.build_frame(source, block)
            },
        }
    }

    /// Resends the end marker, or gives the retry budget up.
    fn retry_eot(&mut self) -> (out: Vec<u8>)
        requires
            old(self).state matches TxState::AwaitingEotAck { attempts } && attempts <= old(
                self,
            ).policy.max_retries_per_block,
            policy_wf(old(self).policy),
        ensures
            final(self).cursor == old(self).cursor,
            final(self).policy == old(self).policy,
            old(self).state matches TxState::AwaitingEotAck { attempts } ==> (if attempts >= old(
                self,
            ).policy.max_retries_per_block {
                final(self).state == (TxState::Aborted { reason: TransferError::TooManyRetries })
                    && out@ == Seq::<u8>::empty()
            } else {
                final(self).state == (TxState::AwaitingEotAck { attempts: (attempts + 1) as u64 })
                    && out@ == seq![EOT]
            }),
    {
        let st = self.state;
        match st {
            TxState::AwaitingEotAck { attempts } => {
                match self.policy.on_timeout(attempts) {
                    crate::policy::RetryDecision::GiveUp => {
                        self.state = TxState::Aborted { reason: TransferError::TooManyRetries };
                        Vec::new()
                    },
                    crate::policy::RetryDecision::Retry => {
                        self.state = TxState::AwaitingEotAck { attempts: attempts + 1 };
                        vec![EOT]
                    },
                }
            },
            _ => Vec::new(),
        }
    }
}

} // verus!
