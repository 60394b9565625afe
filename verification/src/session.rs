//! Whole transfers: drivers that run a sender or receiver session over a
//! channel, and a coupled lossless run of both machines that shows the
//! protocol round-trips every buffer exactly.
//!
//! The drivers are thin, bounded loops: they read events, feed the session
//! state machines, and write back whatever bytes the machines owe the wire.
//! All protocol decisions live in the machines' contracts. A driver's loop
//! is bounded by the policy's event ceiling, so a session over a noisy or
//! hostile channel still terminates.

use vstd::prelude::*;

use crate::io::{ErrorKind, Read, Write};
use crate::packet::{wrap_next_spec, FILLER, FRAME_LEN, PAYLOAD_LEN, SOH};
use crate::policy::{RetryPolicy, TransferError};
use crate::progress::{ProgressSink, SilentProgress};
use crate::receiver::{reported_count_spec, trailing_filler_len, ReceiverSession, RxEvent, RxState};
use crate::sender::{chunk_len_spec, padded_chunk_spec, tx_is_sending, SenderSession, TxEvent,
    TxState};

verus! {

/// The length of a source of `len` bytes once padded out to whole blocks.
pub open spec fn padded_len_spec(len: int) -> int {
    ((len + PAYLOAD_LEN - 1) / (PAYLOAD_LEN as int)) * (PAYLOAD_LEN as int)
}

/// A source of `len` bytes padded out to whole blocks: the source, then
/// filler bytes.
pub open spec fn padded_seq_spec(src: Seq<u8>) -> Seq<u8> {
    Seq::new(
        padded_len_spec(src.len() as int) as nat,
        |i: int|
            if i < src.len() {
                src[i]
            } else {
                FILLER
            },
    )
}

/// The padded length is the first multiple of the block size at or past the
/// source length.
pub proof fn lemma_padded_len_bounds(len: int)
    requires
        len >= 0,
    ensures
        padded_len_spec(len) % (PAYLOAD_LEN as int) == 0,
        len <= padded_len_spec(len) < len + PAYLOAD_LEN,
{
    let p = PAYLOAD_LEN as int;
    let s = len + p - 1;
    assert(((s / p) * p) % p == 0 && s - p < (s / p) * p <= s) by (nonlinear_arith)
        requires
            p == 128,
            s >= 127,
    ;
}

/// Between one multiple of the block size and a larger one lies at least a
/// whole block.
proof fn lemma_block_multiple_gap(a: int, b: int)
    requires
        a % (PAYLOAD_LEN as int) == 0,
        b % (PAYLOAD_LEN as int) == 0,
        a < b,
    ensures
        a + PAYLOAD_LEN <= b,
{
    let p = PAYLOAD_LEN as int;
    assert(a + p <= b) by (nonlinear_arith)
        requires
            p == 128,
            a % p == 0,
            b % p == 0,
            a < b,
    ;
}

/// A run of `p` filler bytes.
pub open spec fn filler_seq_spec(p: nat) -> Seq<u8> {
    Seq::new(p, |i: int| FILLER)
}

/// Padding appended to a sequence that does not end in the filler byte is
/// exactly the filler suffix of the result.
proof fn lemma_trailing_filler_of_padding(s: Seq<u8>, p: nat)
    requires
        s.len() == 0 || s[s.len() - 1] != FILLER,
    ensures
        trailing_filler_len(s + filler_seq_spec(p)) == p,
    decreases p,
{
    if p == 0 {
        assert(s + filler_seq_spec(0) =~= s);
    } else {
        let t = s + filler_seq_spec(p);
        assert(t.last() == FILLER);
        assert(t.drop_last() =~= s + filler_seq_spec((p - 1) as nat));
        lemma_trailing_filler_of_padding(s, (p - 1) as nat);
    }
}

/// Padding is never observable in a reported byte count: the count reported
/// for a padded source is exactly the source length, whenever the source
/// does not itself end in the filler byte (a source that does is
/// indistinguishable, on the wire, from its own padding).
pub proof fn lemma_reported_count_of_padded(src: Seq<u8>)
    requires
        src.len() == 0 || src[src.len() - 1] != FILLER,
    ensures
        reported_count_spec(padded_seq_spec(src)) == src.len(),
{
    lemma_padded_len_bounds(src.len() as int);
    let p = (padded_len_spec(src.len() as int) - src.len()) as nat;
    assert(padded_seq_spec(src) =~= src + filler_seq_spec(p));
    lemma_trailing_filler_of_padding(src, p);
}

/// Decides whether an embedding retry loop — a boot-style receiver that
/// waits forever for an image — should build a fresh session and try again
/// after a failed transfer. Timeout-flavoured and malformed-input failures
/// are discarded and retried; an exhausted destination and a failed channel
/// stop the loop.
pub fn should_restart_after(err: &TransferError) -> (r: bool)
    ensures
        r == !(err is DestinationExhausted || err is UnderlyingIoError),
{
    match err {
        TransferError::DestinationExhausted => false,
        TransferError::UnderlyingIoError => false,
        _ => true,
    }
}

/// True while the sender owes the wire a data block (rather than the end
/// marker).
fn sender_has_block(tx: &SenderSession) -> (r: bool)
    ensures
        r == (tx.state is SendingBlock),
{
    match tx.state {
        TxState::SendingBlock { .. } => true,
        _ => false,
    }
}

/// Splits the wire bytes of a data block into a receiver event, field by
/// field.
fn frame_event(bytes: &Vec<u8>) -> (ev: RxEvent)
    requires
        bytes@.len() == FRAME_LEN,
    ensures
        ev matches RxEvent::Frame { block, complement, payload, checksum } && block == bytes@[1]
            && complement == bytes@[2] && payload@ == bytes@.subrange(3, 131) && checksum
            == bytes@[131],
{
    let block = bytes[1];
    let complement = bytes[2];
    let mut payload: Vec<u8> = Vec::new();
    let mut i: usize = 0;
    while i < PAYLOAD_LEN
        invariant
            0 <= i <= PAYLOAD_LEN,
            bytes@.len() == FRAME_LEN,
            payload@ == bytes@.subrange(3, 3 + i),
        decreases PAYLOAD_LEN - i,
    {
        payload.push(bytes[3 + i]);
        proof {
            assert(bytes@.subrange(3, 3 + (i + 1)) =~= bytes@.subrange(3, 3 + i as int).push(
                bytes@[3 + i],
            ));
        }
        i = i + 1;
    }
    let checksum = bytes[131];
    RxEvent::Frame { block, complement, payload, checksum }
}

/// Reads one byte from the channel and classifies the outcome for the
/// sender: a byte, a timed-out wait, or a failed channel. A stream that ends
/// counts as a failed channel.
fn next_tx_event<C: Read>(channel: &mut C) -> (ev: TxEvent) {
    let mut buf: Vec<u8> = Vec::new();
    buf.push(0);
    match channel.read(&mut buf) {
        Ok(0) => TxEvent::ChannelFailed,
        Ok(_) => TxEvent::Byte { value: buf[0] },
        Err(e) => {
            let kind = e.kind();
            if kind == ErrorKind::TimedOut || kind == ErrorKind::Interrupted {
                TxEvent::TimedOut
            } else {
                TxEvent::ChannelFailed
            }
        },
    }
}

/// Reads the next packet from the channel for the receiver: a whole data
/// block once a start-of-block byte arrives, otherwise the single byte read.
/// A timeout mid-block counts as a timed-out wait; a stream that ends counts
/// as a failed channel.
fn next_rx_event<C: Read>(channel: &mut C) -> (ev: RxEvent)
    ensures
        crate::receiver::rx_event_wf(ev),
{
    let mut buf: Vec<u8> = Vec::new();
    buf.push(0);
    match channel.read(&mut buf) {
        Ok(0) => RxEvent::ChannelFailed,
        Ok(_) => {
            let lead = buf[0];
            if lead != SOH {
                return RxEvent::Control { byte: lead };
            }
            let mut body: Vec<u8> = Vec::new();
            let mut i: usize = 0;
            while i < FRAME_LEN - 1
                invariant
                    body@.len() == i,
                    0 <= i <= FRAME_LEN - 1,
                decreases FRAME_LEN - i,
            {
                body.push(0);
                i = i + 1;
            }
            match channel.read_exact(&mut body) {
                Ok(_) => {
                    let block = body[0];
                    let complement = body[1];
                    let mut payload: Vec<u8> = Vec::new();
                    let mut j: usize = 0;
                    while j < PAYLOAD_LEN
                        invariant
                            payload@.len() == j,
                            0 <= j <= PAYLOAD_LEN,
                            body@.len() == FRAME_LEN - 1,
                        decreases PAYLOAD_LEN - j,
                    {
                        payload.push(body[2 + j]);
                        j = j + 1;
                    }
                    let checksum = body[130];
                    RxEvent::Frame { block, complement, payload, checksum }
                },
                Err(e) => {
                    let kind = e.kind();
                    if kind == ErrorKind::TimedOut || kind == ErrorKind::Interrupted {
                        RxEvent::TimedOut
                    } else {
                        RxEvent::ChannelFailed
                    }
                },
            }
        },
        Err(e) => {
            let kind = e.kind();
            if kind == ErrorKind::TimedOut || kind == ErrorKind::Interrupted {
                RxEvent::TimedOut
            } else {
                RxEvent::ChannelFailed
            }
        },
    }
}

/// Writes `bytes` to the channel whole, mapping a channel failure to the
/// fatal transfer error.
fn send_bytes<C: Write>(channel: &mut C, bytes: &Vec<u8>) -> (r: Result<(), TransferError>) {
    match channel.write_all(bytes) {
        Ok(_) => Ok(()),
        Err(e) => Err(TransferError::UnderlyingIoError),
    }
}

/// Transmits `data` over `channel` with the standard policy, reporting each
/// acknowledged block to `progress`.
///
/// A successful transfer has delivered, and had acknowledged, every source
/// byte: `Ok(n)` implies `n` is exactly the source length. Failures surface
/// as the terminal errors of the session's state machine; transient frame
/// problems are retried inside it and never escape.
pub fn transmit_with_progress<C: Read + Write, P: ProgressSink>(
    data: &Vec<u8>,
    channel: &mut C,
    progress: &mut P,
) -> (r: Result<usize, TransferError>)
    ensures
        r matches Ok(n) ==> n == data@.len(),
{
    let policy = RetryPolicy::new();
    let mut tx = SenderSession::new(policy);
    let mut fuel: u64 = policy.max_session_events;
    loop
        invariant
            tx.wf(data@.len() as nat),
        decreases fuel,
    {
        match tx.outcome() {
            Some(done) => {
                return done;
            },
            None => {},
        }
        if fuel == 0 {
            return Err(TransferError::TooManyRetries);
        }
        fuel = fuel - 1;
        if tx.is_sending() {
            let out = tx.pump(data);
            match send_bytes(channel, &out) {
                Ok(_) => {},
                Err(e) => {
                    return Err(e);
                },
            }
        } else {
            let ev = next_tx_event(channel);
            let before = tx.cursor;
            let out = tx.step(data, ev);
            if out.len() > 0 {
                match send_bytes(channel, &out) {
                    Ok(_) => {},
                    Err(e) => {
                        return Err(e);
                    },
                }
            }
            if tx.cursor > before {
                progress.on_block_sent(tx.cursor);
            }
        }
    }
}

/// Transmits `data` over `channel` with the standard policy: `Ok(n)` implies
/// `n` is exactly the source length.
pub fn transmit<C: Read + Write>(data: &Vec<u8>, channel: &mut C) -> (r: Result<
    usize,
    TransferError,
>)
    ensures
        r matches Ok(n) ==> n == data@.len(),
{
    let mut sink = SilentProgress;
    transmit_with_progress(data, channel, &mut sink)
}

/// Receives a transfer from `channel` into `dest`, whose length is the fixed
/// capacity, with the standard policy.
///
/// The destination keeps its length; a successful transfer reports at most
/// the capacity, with the final block's trailing padding already discounted.
/// The receiver speaks first, by writing its negotiation byte.
pub fn receive<C: Read + Write>(channel: &mut C, dest: &mut Vec<u8>) -> (r: Result<
    usize,
    TransferError,
>)
    ensures
        final(dest)@.len() == old(dest)@.len(),
        r matches Ok(n) ==> n <= final(dest)@.len(),
{
    let policy = RetryPolicy::new();
    let mut rx = ReceiverSession::new(policy);
    let mut hello: Vec<u8> = Vec::new();
    hello.push(rx.handshake_request());
    match send_bytes(channel, &hello) {
        Ok(_) => {},
        Err(e) => {
            return Err(e);
        },
    }
    let mut fuel: u64 = policy.max_session_events;
    loop
        invariant
            rx.wf(dest@.len() as nat),
            dest@.len() == old(dest)@.len(),
        decreases fuel,
    {
        match rx.outcome() {
            Some(done) => {
                return done;
            },
            None => {},
        }
        if fuel == 0 {
            return Err(TransferError::TooManyRetries);
        }
        fuel = fuel - 1;
        let ev = next_rx_event(channel);
        let out = rx.step(dest, ev);
        if out.len() > 0 {
            match send_bytes(channel, &out) {
                Ok(_) => {},
                Err(e) => {
                    return Err(e);
                },
            }
        }
    }
}

/// Runs one sender and one receiver against each other over a perfect
/// in-memory channel: every byte the sender emits reaches the receiver
/// intact and in order, and every acknowledgement comes straight back.
///
/// This is the protocol's round-trip statement. For any source that fits the
/// destination once padded to whole blocks, the run completes both sessions;
/// the destination's prefix is byte-identical to the source, with only
/// filler bytes after it up to the padded length and untouched bytes beyond;
/// the sender reports exactly the source length; and the receiver reports
/// the same, except for a source ending in the filler byte itself, which is
/// indistinguishable on the wire from its own padding.
pub fn run_lossless_transfer(data: &Vec<u8>, dest: &mut Vec<u8>) -> (r: (usize, usize))
    requires
        padded_len_spec(data@.len() as int) <= old(dest)@.len(),
    ensures
        final(dest)@.len() == old(dest)@.len(),
        r.0 == data@.len(),
        final(dest)@.subrange(0, data@.len() as int) == data@,
        forall|i: int|
            0 <= i < padded_len_spec(data@.len() as int) ==> final(dest)@[i] == padded_seq_spec(
                data@,
            )[i],
        forall|i: int|
            padded_len_spec(data@.len() as int) <= i < final(dest)@.len() ==> final(dest)@[i]
                == old(dest)@[i],
        r.1 == reported_count_spec(padded_seq_spec(data@)),
        data@.len() == 0 || data@[data@.len() - 1] != FILLER ==> r.1 == data@.len(),
{
    let srclen = data.len();
    proof {
        lemma_padded_len_bounds(srclen as int);
    }
    let policy = RetryPolicy::new();
    let mut tx = SenderSession::new(policy);
    let mut rx = ReceiverSession::new(policy);
    let hello = rx.handshake_request();
    let _opening = tx.step(data, TxEvent::Byte { value: hello });
    while sender_has_block(&tx)
        invariant
            data@.len() == srclen,
            padded_len_spec(srclen as int) <= dest@.len(),
            dest@.len() == old(dest)@.len(),
            tx.wf(srclen as nat),
            rx.wf(dest@.len() as nat),
            tx_is_sending(tx.state),
            rx.block_attempts == 0,
            (rx.write_cursor as int) % (PAYLOAD_LEN as int) == 0,
            tx.state matches TxState::SendingBlock { block } ==> block == wrap_next_spec(
                rx.last_accepted,
            ) && tx.cursor == rx.write_cursor && rx.state == (if rx.last_accepted == 0 {
                RxState::AwaitingStart { attempts: 0 }
            } else {
                RxState::AwaitingBlock { expected: block }
            }),
            tx.state is SendingEot ==> crate::receiver::rx_is_waiting(rx.state) && srclen
                <= rx.write_cursor < srclen + PAYLOAD_LEN,
            forall|i: int|
                0 <= i < rx.write_cursor ==> dest@[i] == (if i < srclen {
                    data@[i]
                } else {
                    FILLER
                }),
            forall|i: int|
                rx.write_cursor <= i < dest@.len() ==> dest@[i] == old(dest)@[i],
        decreases srclen - tx.cursor,
    {
        let ghost pre_cursor = tx.cursor;
        let ghost pre_rx_cursor = rx.write_cursor;
        let ghost pre_dest = dest@;
        let ghost b = tx.state->SendingBlock_block;
        let ghost chunk = padded_chunk_spec(data@, pre_cursor as int);
        let frame = tx.pump(data);
        proof {
            crate::packet::lemma_data_frame_fields(b, chunk);
            lemma_padded_len_bounds(srclen as int);
            lemma_block_multiple_gap(
                rx.write_cursor as int,
                padded_len_spec(srclen as int),
            );
        }
        let ev = frame_event(&frame);
        let reply = rx.step(dest, ev);
        proof {
            if tx.cursor + chunk_len_spec(srclen as int, tx.cursor as int) < srclen {
                lemma_block_multiple_gap(
                    rx.write_cursor as int,
                    padded_len_spec(srclen as int),
                );
            }
        }
        let _silent = tx.step(data, TxEvent::Byte { value: reply[0] });
        proof {
            assert forall|i: int|
                0 <= i < rx.write_cursor implies dest@[i] == (if i < srclen {
                data@[i]
            } else {
                FILLER
            }) by {
                if i < pre_rx_cursor {
                    assert(dest@[i] == pre_dest[i]);
                } else {
                    assert(dest@[i] == chunk[i - pre_rx_cursor]);
                }
            }
        }
    }
    // every block is delivered and acknowledged: only the end marker is left
    proof {
        lemma_padded_len_bounds(srclen as int);
        if rx.write_cursor < padded_len_spec(srclen as int) {
            lemma_block_multiple_gap(rx.write_cursor as int, padded_len_spec(srclen as int));
        }
        if padded_len_spec(srclen as int) < rx.write_cursor {
            lemma_block_multiple_gap(padded_len_spec(srclen as int), rx.write_cursor as int);
        }
        assert(rx.write_cursor == padded_len_spec(srclen as int));
    }
    let ghost final_cursor = rx.write_cursor;
    let eot_frame = tx.pump(data);
    let reply = rx.step(dest, RxEvent::Control { byte: eot_frame[0] });
    let _finish = tx.step(data, TxEvent::Byte { value: reply[0] });
    proof {
        assert(dest@.subrange(0, final_cursor as int) =~= padded_seq_spec(data@));
        assert(dest@.subrange(0, data@.len() as int) =~= data@);
        if data@.len() == 0 || data@[data@.len() - 1] != FILLER {
            lemma_reported_count_of_padded(data@);
        }
    }
    let sent = tx.cursor;
    let received = match rx.outcome() {
        Some(Ok(n)) => n,
        _ => 0,
    };
    (sent, received)
}

} // verus!
