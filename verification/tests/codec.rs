//! Tests for the packet codec: framing, checksums, header classification.

use xmodem::packet::{
    compute_checksum, decode_header, encode, validate_data, wrap_next, FrameError, HeaderClass,
    Packet, ACK, CAN, CRC_REQUEST, EOT, FILLER, FRAME_LEN, NAK, PAYLOAD_LEN, SOH,
};

fn sample_payload() -> Vec<u8> {
    let mut p = Vec::new();
    for i in 0..PAYLOAD_LEN {
        p.push((i % 251) as u8);
    }
    p
}

#[test]
fn wire_constants_match_the_protocol() {
    assert_eq!(SOH, 0x01);
    assert_eq!(EOT, 0x04);
    assert_eq!(ACK, 0x06);
    assert_eq!(NAK, 0x15);
    assert_eq!(CAN, 0x18);
    assert_eq!(CRC_REQUEST, 0x43);
    assert_eq!(FILLER, 0x1A);
    assert_eq!(PAYLOAD_LEN, 128);
    assert_eq!(FRAME_LEN, 132);
}

#[test]
fn checksum_is_additive_mod_256() {
    let mut p = vec![0u8; PAYLOAD_LEN];
    p[0] = 200;
    p[1] = 100;
    // 200 + 100 = 300, and 300 mod 256 = 44
    assert_eq!(compute_checksum(&p), 44);
    let zeros = vec![0u8; PAYLOAD_LEN];
    assert_eq!(compute_checksum(&zeros), 0);
}

#[test]
fn data_frame_layout_is_exact() {
    let payload = sample_payload();
    let frame = encode(&Packet::Data { block_number: 7, payload: payload.clone() });
    assert_eq!(frame.len(), FRAME_LEN);
    assert_eq!(frame[0], SOH);
    assert_eq!(frame[1], 7);
    assert_eq!(frame[2], 255 - 7);
    assert_eq!(&frame[3..131], &payload[..]);
    assert_eq!(frame[131], compute_checksum(&payload));
}

#[test]
fn control_packets_encode_to_single_bytes() {
    assert_eq!(encode(&Packet::EndOfTransmission), vec![EOT]);
    assert_eq!(encode(&Packet::Acknowledge), vec![ACK]);
    assert_eq!(encode(&Packet::NegativeAcknowledge), vec![NAK]);
    assert_eq!(encode(&Packet::Cancel), vec![CAN]);
    assert_eq!(encode(&Packet::NegotiateChecksumMode), vec![NAK]);
    assert_eq!(encode(&Packet::NegotiateCrcMode), vec![CRC_REQUEST]);
}

#[test]
fn header_bytes_classify_exactly() {
    assert_eq!(decode_header(SOH), Ok(HeaderClass::DataBlockFollows));
    assert_eq!(decode_header(EOT), Ok(HeaderClass::EndOfTransmission));
    assert_eq!(decode_header(ACK), Ok(HeaderClass::Acknowledge));
    assert_eq!(decode_header(NAK), Ok(HeaderClass::NegativeAcknowledge));
    assert_eq!(decode_header(CAN), Ok(HeaderClass::Cancel));
    assert_eq!(decode_header(CRC_REQUEST), Ok(HeaderClass::CrcModeRequest));
    assert_eq!(decode_header(0x00), Err(FrameError::UnrecognizedByte));
    assert_eq!(decode_header(0xFF), Err(FrameError::UnrecognizedByte));
}

#[test]
fn validate_accepts_what_encode_produced() {
    let payload = sample_payload();
    let frame = encode(&Packet::Data { block_number: 3, payload: payload.clone() });
    match validate_data(&frame) {
        Ok(Packet::Data { block_number, payload: got }) => {
            assert_eq!(block_number, 3);
            assert_eq!(got, payload);
        },
        other => panic!("expected the data packet back, got {:?}", other.is_ok()),
    }
}

#[test]
fn validate_rejects_a_corrupted_payload_byte() {
    let payload = sample_payload();
    let mut frame = encode(&Packet::Data { block_number: 3, payload });
    frame[10] ^= 0x01; // corrupt one payload byte in transit
    assert!(matches!(validate_data(&frame), Err(FrameError::ChecksumMismatch)));
}

#[test]
fn validate_rejects_a_bad_complement() {
    let payload = sample_payload();
    let mut frame = encode(&Packet::Data { block_number: 3, payload });
    frame[2] = 0; // 3 + 0 != 255
    assert!(matches!(validate_data(&frame), Err(FrameError::MalformedBlockNumber)));
}

#[test]
fn validate_rejects_the_reserved_block_number() {
    let payload = sample_payload();
    let mut frame = encode(&Packet::Data { block_number: 1, payload });
    frame[1] = 0;
    frame[2] = 255;
    assert!(matches!(validate_data(&frame), Err(FrameError::MalformedBlockNumber)));
}

#[test]
fn block_numbers_wrap_skipping_zero() {
    assert_eq!(wrap_next(0), 1);
    assert_eq!(wrap_next(1), 2);
    assert_eq!(wrap_next(254), 255);
    assert_eq!(wrap_next(255), 1);
}
