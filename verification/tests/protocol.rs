//! Tests for the sender and receiver state machines and the lossless run.

use xmodem::packet::{ACK, CAN, EOT, FILLER, NAK, PAYLOAD_LEN};
use xmodem::policy::{RetryDecision, RetryPolicy, TransferError};
use xmodem::progress::{ProgressSink, RecordingProgress};
use xmodem::receiver::{ReceiverSession, RxEvent, RxState};
use xmodem::sender::{SenderSession, TxEvent, TxState};
use xmodem::session::{run_lossless_transfer, should_restart_after};

fn byte(v: u8) -> TxEvent {
    TxEvent::Byte { value: v }
}

fn frame_to_event(frame: &[u8]) -> RxEvent {
    assert_eq!(frame.len(), 132);
    assert_eq!(frame[0], 0x01);
    RxEvent::Frame {
        block: frame[1],
        complement: frame[2],
        payload: frame[3..131].to_vec(),
        checksum: frame[131],
    }
}

/// Drives one sender and one receiver by hand over a perfect exchange and
/// returns their sessions along with the reported counts.
fn drive_lossless(data: &Vec<u8>, dest: &mut Vec<u8>) -> (SenderSession, ReceiverSession) {
    let policy = RetryPolicy::new();
    let mut tx = SenderSession::new(policy);
    let mut rx = ReceiverSession::new(policy);
    let hello = rx.handshake_request();
    let out = tx.step(data, byte(hello));
    assert!(out.is_empty());
    loop {
        match tx.state {
            TxState::SendingBlock { .. } => {
                let frame = tx.pump(data);
                let reply = rx.step(dest, frame_to_event(&frame));
                assert_eq!(reply, vec![ACK]);
                let silent = tx.step(data, byte(reply[0]));
                assert!(silent.is_empty());
            },
            TxState::SendingEot => {
                let eot = tx.pump(data);
                assert_eq!(eot, vec![EOT]);
                let reply = rx.step(dest, RxEvent::Control { byte: eot[0] });
                assert_eq!(reply, vec![ACK]);
                tx.step(data, byte(reply[0]));
            },
            TxState::Completed => break,
            ref other => panic!("sender stuck in {:?}", other),
        }
    }
    (tx, rx)
}

#[test]
fn round_trip_restores_the_source_exactly() {
    for len in [0usize, 1, 57, 127, 128, 129, 255, 256, 300, 384] {
        let data: Vec<u8> = (0..len).map(|i| (i * 7 + 3) as u8).collect();
        let mut dest = vec![0u8; 512];
        let (sent, received) = run_lossless_transfer(&data, &mut dest);
        assert_eq!(sent, len, "bytes sent for length {len}");
        assert_eq!(received, len, "bytes received for length {len}");
        assert_eq!(&dest[..len], &data[..], "destination prefix for length {len}");
    }
}

#[test]
fn padding_is_not_reported_and_only_filler_follows_the_source() {
    let data: Vec<u8> = vec![9, 8, 7, 6, 5];
    let mut dest = vec![0xEEu8; 256];
    let (sent, received) = run_lossless_transfer(&data, &mut dest);
    assert_eq!(sent, 5);
    assert_eq!(received, 5);
    assert_eq!(&dest[..5], &[9, 8, 7, 6, 5]);
    for i in 5..128 {
        assert_eq!(dest[i], FILLER, "padding at {i}");
    }
    // beyond the padded length the buffer is untouched
    for i in 128..256 {
        assert_eq!(dest[i], 0xEE, "untouched byte at {i}");
    }
}

#[test]
fn a_source_ending_in_the_filler_byte_under_reports() {
    // the one source shape whose padding cannot be told apart from its data:
    // a trailing 0x1A is stripped along with the padding
    let data: Vec<u8> = vec![0x41, FILLER];
    let mut dest = vec![0u8; 128];
    let (sent, received) = run_lossless_transfer(&data, &mut dest);
    assert_eq!(sent, 2);
    assert_eq!(received, 1);
    assert_eq!(&dest[..2], &[0x41, FILLER]);
}

#[test]
fn three_blocks_of_incrementing_bytes_complete_cleanly() {
    // 300 bytes of 0,1,...,255,0,1,...,43: three blocks, the last padded
    let data: Vec<u8> = (0..300).map(|i| (i % 256) as u8).collect();
    let mut dest = vec![0u8; 384];
    let (tx, rx) = {
        let mut dest_view = dest.clone();
        let pair = drive_lossless(&data, &mut dest_view);
        dest = dest_view;
        pair
    };
    assert!(matches!(tx.state, TxState::Completed));
    assert!(matches!(rx.state, RxState::Completed { count: 300 }));
    assert_eq!(tx.outcome(), Some(Ok(300)));
    assert_eq!(rx.outcome(), Some(Ok(300)));
    assert_eq!(&dest[..300], &data[..]);
    for i in 300..384 {
        assert_eq!(dest[i], FILLER);
    }
}

#[test]
fn duplicate_block_is_reacknowledged_without_corruption() {
    let data: Vec<u8> = (0..200).map(|i| i as u8).collect();
    let policy = RetryPolicy::new();
    let mut tx = SenderSession::new(policy);
    let mut rx = ReceiverSession::new(policy);
    let mut dest = vec![0u8; 256];
    tx.step(&data, byte(NAK));
    let frame1 = tx.pump(&data);
    let reply = rx.step(&mut dest, frame_to_event(&frame1));
    assert_eq!(reply, vec![ACK]);
    let cursor_after = rx.write_cursor;
    let dest_after = dest.clone();
    let state_after = rx.state;
    // the acknowledgement is lost; the sender resends the identical block
    let reply2 = rx.step(&mut dest, frame_to_event(&frame1));
    assert_eq!(reply2, vec![ACK], "a duplicate is acknowledged again");
    assert_eq!(rx.write_cursor, cursor_after, "the cursor does not move");
    assert_eq!(dest, dest_after, "the buffer is untouched");
    assert_eq!(rx.state, state_after, "the state does not change");
}

#[test]
fn corrupted_block_draws_a_negative_acknowledgement() {
    let data: Vec<u8> = (0..64).map(|i| i as u8).collect();
    let policy = RetryPolicy::new();
    let mut tx = SenderSession::new(policy);
    let mut rx = ReceiverSession::new(policy);
    let mut dest = vec![0u8; 128];
    tx.step(&data, byte(NAK));
    let mut frame = tx.pump(&data);
    frame[10] ^= 0x40; // corrupt exactly one payload byte in transit
    let reply = rx.step(&mut dest, frame_to_event(&frame));
    assert_eq!(reply, vec![NAK]);
    assert_eq!(rx.write_cursor, 0, "nothing was accepted");
    // the sender answers a negative acknowledgement with the identical block
    let resent = tx.step(&data, byte(NAK));
    let clean = {
        let mut f = frame.clone();
        f[10] ^= 0x40;
        f
    };
    assert_eq!(resent, clean, "the resent block is identical");
}

#[test]
fn persistent_corruption_exhausts_the_sender_retry_budget() {
    let data: Vec<u8> = (0..64).map(|i| i as u8).collect();
    let policy = RetryPolicy::new();
    let mut tx = SenderSession::new(policy);
    tx.step(&data, byte(NAK));
    tx.pump(&data);
    // every acknowledgement comes back negative
    let mut naks = 0u64;
    loop {
        match tx.state {
            TxState::Aborted { reason } => {
                assert_eq!(reason, TransferError::TooManyRetries);
                break;
            },
            _ => {
                tx.step(&data, byte(NAK));
                naks += 1;
                assert!(naks < 100, "the sender never gave up");
            },
        }
    }
    assert_eq!(naks, policy.max_retries_per_block + 1);
}

#[test]
fn persistent_corruption_exhausts_the_receiver_retry_budget() {
    let data: Vec<u8> = (0..64).map(|i| i as u8).collect();
    let policy = RetryPolicy::new();
    let mut tx = SenderSession::new(policy);
    let mut rx = ReceiverSession::new(policy);
    let mut dest = vec![0u8; 128];
    tx.step(&data, byte(NAK));
    let mut frame = tx.pump(&data);
    frame[10] ^= 0x40;
    let mut rejected = 0u64;
    loop {
        match rx.state {
            RxState::Aborted { reason } => {
                assert_eq!(reason, TransferError::TooManyRetries);
                break;
            },
            _ => {
                rx.step(&mut dest, frame_to_event(&frame));
                rejected += 1;
                assert!(rejected < 100, "the receiver never gave up");
            },
        }
    }
    assert_eq!(rejected, policy.max_retries_per_block + 1);
}

#[test]
fn overflowing_block_aborts_with_prior_blocks_intact() {
    // two full blocks offered, but only one fits
    let data: Vec<u8> = (0..256).map(|i| i as u8).collect();
    let policy = RetryPolicy::new();
    let mut tx = SenderSession::new(policy);
    let mut rx = ReceiverSession::new(policy);
    let mut dest = vec![0u8; 128];
    tx.step(&data, byte(NAK));
    let frame1 = tx.pump(&data);
    let reply = rx.step(&mut dest, frame_to_event(&frame1));
    assert_eq!(reply, vec![ACK]);
    assert_eq!(&dest[..128], &data[..128]);
    tx.step(&data, byte(ACK));
    let frame2 = tx.pump(&data);
    let reply2 = rx.step(&mut dest, frame_to_event(&frame2));
    assert!(reply2.is_empty(), "an overflow is not retried");
    assert!(matches!(
        rx.state,
        RxState::Aborted { reason: TransferError::DestinationExhausted }
    ));
    assert_eq!(&dest[..128], &data[..128], "the accepted block is intact");
}

#[test]
fn cancel_aborts_the_sender_in_every_waiting_state() {
    let data: Vec<u8> = (0..300).map(|i| i as u8).collect();
    let policy = RetryPolicy::new();

    // while awaiting the handshake
    let mut tx = SenderSession::new(policy);
    tx.step(&data, byte(CAN));
    assert!(matches!(tx.state, TxState::Aborted { reason: TransferError::CanceledByPeer }));

    // while awaiting a block's acknowledgement
    let mut tx = SenderSession::new(policy);
    tx.step(&data, byte(NAK));
    tx.pump(&data);
    tx.step(&data, byte(CAN));
    assert!(matches!(tx.state, TxState::Aborted { reason: TransferError::CanceledByPeer }));

    // while awaiting the end marker's acknowledgement
    let short: Vec<u8> = vec![1, 2, 3];
    let mut tx = SenderSession::new(policy);
    tx.step(&short, byte(NAK));
    tx.pump(&short);
    tx.step(&short, byte(ACK));
    tx.pump(&short);
    tx.step(&short, byte(CAN));
    assert!(matches!(tx.state, TxState::Aborted { reason: TransferError::CanceledByPeer }));
}

#[test]
fn cancel_aborts_the_receiver_in_every_waiting_state() {
    let data: Vec<u8> = (0..300).map(|i| i as u8).collect();
    let policy = RetryPolicy::new();
    let mut tx = SenderSession::new(policy);

    // while awaiting the start
    let mut rx = ReceiverSession::new(policy);
    let mut dest = vec![0u8; 384];
    rx.step(&mut dest, RxEvent::Control { byte: CAN });
    assert!(matches!(rx.state, RxState::Aborted { reason: TransferError::CanceledByPeer }));

    // while awaiting a block
    let mut rx = ReceiverSession::new(policy);
    let mut dest = vec![0u8; 384];
    tx.step(&data, byte(NAK));
    let frame1 = tx.pump(&data);
    rx.step(&mut dest, frame_to_event(&frame1));
    assert!(matches!(rx.state, RxState::AwaitingBlock { .. }));
    rx.step(&mut dest, RxEvent::Control { byte: CAN });
    assert!(matches!(rx.state, RxState::Aborted { reason: TransferError::CanceledByPeer }));
}

#[test]
fn out_of_sequence_block_is_fatal() {
    let data: Vec<u8> = (0..64).map(|i| i as u8).collect();
    let policy = RetryPolicy::new();
    let mut tx = SenderSession::new(policy);
    let mut rx = ReceiverSession::new(policy);
    let mut dest = vec![0u8; 128];
    tx.step(&data, byte(NAK));
    let mut frame = tx.pump(&data);
    frame[1] = 5; // a well-formed but unexpected block number
    frame[2] = 255 - 5;
    rx.step(&mut dest, frame_to_event(&frame));
    assert!(matches!(rx.state, RxState::Aborted { reason: TransferError::OutOfSequence }));
}

#[test]
fn handshake_timeouts_exhaust_into_no_receiver_and_no_sender() {
    let data: Vec<u8> = vec![1, 2, 3];
    let policy = RetryPolicy::new();
    let mut tx = SenderSession::new(policy);
    let mut timeouts = 0u64;
    loop {
        match tx.state {
            TxState::Aborted { reason } => {
                assert_eq!(reason, TransferError::NoReceiver);
                break;
            },
            _ => {
                tx.step(&data, TxEvent::TimedOut);
                timeouts += 1;
                assert!(timeouts < 100);
            },
        }
    }
    assert_eq!(timeouts, policy.max_handshake_attempts);

    let mut rx = ReceiverSession::new(policy);
    let mut dest = vec![0u8; 128];
    let mut timeouts = 0u64;
    loop {
        match rx.state {
            RxState::Aborted { reason } => {
                assert_eq!(reason, TransferError::NoSender);
                break;
            },
            _ => {
                let out = rx.step(&mut dest, RxEvent::TimedOut);
                if !matches!(rx.state, RxState::Aborted { .. }) {
                    assert_eq!(out, vec![NAK], "each handshake wait repeats the request");
                }
                timeouts += 1;
                assert!(timeouts < 100);
            },
        }
    }
    assert_eq!(timeouts, policy.max_handshake_attempts);
}

#[test]
fn stray_bytes_are_ignored_while_waiting() {
    let data: Vec<u8> = vec![1, 2, 3];
    let policy = RetryPolicy::new();
    let mut tx = SenderSession::new(policy);
    let out = tx.step(&data, byte(0x00));
    assert!(out.is_empty());
    assert!(matches!(tx.state, TxState::AwaitingStart { attempts: 0 }));
    let out = tx.step(&data, byte(0x7F));
    assert!(out.is_empty());
    assert!(matches!(tx.state, TxState::AwaitingStart { attempts: 0 }));

    let mut rx = ReceiverSession::new(policy);
    let mut dest = vec![0u8; 128];
    let out = rx.step(&mut dest, RxEvent::Control { byte: 0x33 });
    assert!(out.is_empty());
    assert!(matches!(rx.state, RxState::AwaitingStart { attempts: 0 }));
}

#[test]
fn a_crc_mode_request_is_not_taken_up() {
    // this sender offers only additive-checksum mode, so the byte asking for
    // CRC mode is discarded and the sender keeps waiting for the fallback
    let data: Vec<u8> = vec![1, 2, 3];
    let policy = RetryPolicy::new();
    let mut tx = SenderSession::new(policy);
    let out = tx.step(&data, byte(0x43));
    assert!(out.is_empty());
    assert!(matches!(tx.state, TxState::AwaitingStart { attempts: 0 }));
    tx.step(&data, byte(NAK));
    assert!(matches!(tx.state, TxState::SendingBlock { block: 1 }));
}

#[test]
fn a_channel_failure_event_is_fatal_for_both_sides() {
    let data: Vec<u8> = vec![1, 2, 3];
    let policy = RetryPolicy::new();
    let mut tx = SenderSession::new(policy);
    tx.step(&data, TxEvent::ChannelFailed);
    assert!(matches!(tx.state, TxState::Aborted { reason: TransferError::UnderlyingIoError }));
    let mut rx = ReceiverSession::new(policy);
    let mut dest = vec![0u8; 128];
    rx.step(&mut dest, RxEvent::ChannelFailed);
    assert!(matches!(rx.state, RxState::Aborted { reason: TransferError::UnderlyingIoError }));
}

#[test]
fn progress_reports_each_acknowledged_total() {
    let data: Vec<u8> = (0..300).map(|i| i as u8).collect();
    let policy = RetryPolicy::new();
    let mut tx = SenderSession::new(policy);
    let mut sink = RecordingProgress::new();
    tx.step(&data, byte(NAK));
    while !matches!(tx.state, TxState::Completed) {
        match tx.state {
            TxState::SendingBlock { .. } | TxState::SendingEot => {
                tx.pump(&data);
            },
            _ => {
                let before = tx.cursor;
                tx.step(&data, byte(ACK));
                if tx.cursor > before {
                    sink.on_block_sent(tx.cursor);
                }
            },
        }
    }
    assert_eq!(sink.reports, vec![128, 256, 300]);
}

#[test]
fn retry_policy_draws_its_lines_exactly() {
    let policy = RetryPolicy::new();
    assert_eq!(policy.max_retries_per_block, 10);
    assert_eq!(policy.max_handshake_attempts, 10);
    assert_eq!(policy.byte_timeout_ms, 1000);
    assert_eq!(policy.initial_handshake_timeout_ms, 10000);
    assert_eq!(policy.on_timeout(9), RetryDecision::Retry);
    assert_eq!(policy.on_timeout(10), RetryDecision::GiveUp);
    assert_eq!(policy.on_checksum_failure(9), RetryDecision::Retry);
    assert_eq!(policy.on_checksum_failure(10), RetryDecision::GiveUp);
    assert_eq!(policy.on_handshake_timeout(9), RetryDecision::Retry);
    assert_eq!(policy.on_handshake_timeout(10), RetryDecision::GiveUp);
}

#[test]
fn boot_retry_loop_stops_only_on_fatal_conditions() {
    assert!(should_restart_after(&TransferError::NoSender));
    assert!(should_restart_after(&TransferError::NoReceiver));
    assert!(should_restart_after(&TransferError::TooManyRetries));
    assert!(should_restart_after(&TransferError::CanceledByPeer));
    assert!(should_restart_after(&TransferError::OutOfSequence));
    assert!(!should_restart_after(&TransferError::DestinationExhausted));
    assert!(!should_restart_after(&TransferError::UnderlyingIoError));
}
