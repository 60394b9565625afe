//! Framing for the transfer protocol: packet values, their wire encoding,
//! and validation of received data blocks.
//!
//! A data block travels as `[SOH][block][255 - block][128 payload bytes][checksum]`,
//! 132 bytes in all, where the checksum is the sum of the payload bytes modulo 256.
//! Every other packet is a single control byte. Encoding and validation are pure:
//! no I/O and no retry logic lives here.

use vstd::prelude::*;

verus! {

/// Start of a 128-byte data block.
pub const SOH: u8 = 0x01;

/// End of transmission.
pub const EOT: u8 = 0x04;

/// Acknowledge.
pub const ACK: u8 = 0x06;

/// Negative acknowledge; also the receiver's request for additive-checksum mode.
pub const NAK: u8 = 0x15;

/// Cancel the session.
pub const CAN: u8 = 0x18;

/// The receiver's request for CRC mode (the byte `C`).
pub const CRC_REQUEST: u8 = 0x43;

/// The byte used to pad a final, partial data block up to 128 bytes.
pub const FILLER: u8 = 0x1A;

/// Payload bytes in one data block.
pub const PAYLOAD_LEN: usize = 128;

/// Bytes in one data block on the wire: start byte, block number,
/// complement, payload, checksum.
pub const FRAME_LEN: usize = 132;

/// One protocol frame.
pub enum Packet {
    /// A 128-byte data block. `block_number` starts at 1 and wraps modulo 256,
    /// skipping the reserved value 0.
    Data { block_number: u8, payload: Vec<u8> },
    /// The sender has no more blocks.
    EndOfTransmission,
    /// The last block (or the end marker) was accepted.
    Acknowledge,
    /// The last block was rejected; also requests additive-checksum mode
    /// at session start (the wire byte is shared).
    NegativeAcknowledge,
    /// Abort the session.
    Cancel,
    /// The receiver asks for additive-checksum mode.
    NegotiateChecksumMode,
    /// The receiver asks for CRC mode.
    NegotiateCrcMode,
}

/// A well-formed packet: a data block carries exactly 128 payload bytes and
/// never uses the reserved block number 0.
pub open spec fn packet_wf(p: Packet) -> bool {
    p matches Packet::Data { block_number, payload } ==> payload@.len() == PAYLOAD_LEN
        && block_number != 0
}

/// The block number that follows `n`: block numbers start at 1 and wrap
/// modulo 256, skipping the reserved value 0.
pub open spec fn wrap_next_spec(n: u8) -> u8 {
    if n == 255 {
        1
    } else {
        (n + 1) as u8
    }
}

/// Computes the block number that follows `n`.
pub fn wrap_next(n: u8) -> (r: u8)
    ensures
        r == wrap_next_spec(n),
{
    if n == 255 {
        1
    } else {
        n + 1
    }
}

/// The sum of a byte sequence, as an unbounded integer.
pub open spec fn byte_sum(s: Seq<u8>) -> int
    decreases s.len(),
{
    if s.len() == 0 {
        0
    } else {
        byte_sum(s.drop_last()) + s.last()
    }
}

/// The additive checksum of a payload: its byte sum modulo 256.
pub open spec fn checksum_spec(s: Seq<u8>) -> u8 {
    (byte_sum(s) % 256) as u8
}

/// The wire bytes of a data block.
pub open spec fn data_frame_spec(block: u8, payload: Seq<u8>) -> Seq<u8> {
    seq![SOH, block, (255 - block) as u8] + payload + seq![checksum_spec(payload)]
}

/// How a single leading byte is classified.
#[derive(Clone, Copy, Debug, PartialEq, Eq)]
pub enum HeaderClass {
    /// A 132-byte data block follows this byte.
    DataBlockFollows,
    EndOfTransmission,
    Acknowledge,
    NegativeAcknowledge,
    Cancel,
    /// The receiver asks for CRC mode.
    CrcModeRequest,
}

/// Why a frame (or a leading byte) was rejected. These are transient: the
/// state machines answer them with a retry or a negative acknowledgement,
/// never by failing the session directly.
#[derive(Clone, Copy, Debug, PartialEq, Eq)]
pub enum FrameError {
    /// The recomputed payload checksum does not match the one on the wire.
    ChecksumMismatch,
    /// The block number and its complement byte do not add up to 255,
    /// or the block number is the reserved value 0.
    MalformedBlockNumber,
    /// A leading byte with no protocol meaning; treated as line noise.
    UnrecognizedByte,
}

/// What `decode_header` returns for each byte value.
pub open spec fn decode_header_spec(b: u8) -> Result<HeaderClass, FrameError> {
    if b == SOH {
        Ok(HeaderClass::DataBlockFollows)
    } else if b == EOT {
        Ok(HeaderClass::EndOfTransmission)
    } else if b == ACK {
        Ok(HeaderClass::Acknowledge)
    } else if b == NAK {
        Ok(HeaderClass::NegativeAcknowledge)
    } else if b == CAN {
        Ok(HeaderClass::Cancel)
    } else if b == CRC_REQUEST {
        Ok(HeaderClass::CrcModeRequest)
    } else {
        Err(FrameError::UnrecognizedByte)
    }
}

/// Classifies a single leading byte: a control packet, the start of a data
/// block, or noise to be discarded.
pub fn decode_header(b: u8) -> (r: Result<HeaderClass, FrameError>)
    ensures
        r == decode_header_spec(b),
{
    if b == SOH {
        Ok(HeaderClass::DataBlockFollows)
    } else if b == EOT {
        Ok(HeaderClass::EndOfTransmission)
    } else if b == ACK {
        Ok(HeaderClass::Acknowledge)
    } else if b == NAK {
        Ok(HeaderClass::NegativeAcknowledge)
    } else if b == CAN {
        Ok(HeaderClass::Cancel)
    } else if b == CRC_REQUEST {
        Ok(HeaderClass::CrcModeRequest)
    } else {
        Err(FrameError::UnrecognizedByte)
    }
}

/// Computes the additive checksum of `payload`.
pub fn compute_checksum(payload: &Vec<u8>) -> (r: u8)
    ensures
        r == checksum_spec(payload@),
{
    let mut sum: u8 = 0;
    let mut i: usize = 0;
    while i < payload.len()
        invariant
            0 <= i <= payload@.len(),
            sum == (byte_sum(payload@.subrange(0, i as int)) % 256) as u8,
            byte_sum(payload@.subrange(0, i as int)) % 256 == sum,
        decreases payload@.len() - i,
    {
        proof {
            let pre = payload@.subrange(0, i as int);
            let post = payload@.subrange(0, i + 1);
            assert(post.drop_last() =~= pre);
            assert(post.last() == payload@[i as int]);
        }
        let wide: u16 = sum as u16 + payload[i] as u16;
        sum = (wide % 256) as u8;
        i = i + 1;
    }
    proof {
        assert(payload@.subrange(0, payload@.len() as int) =~= payload@);
    }
    sum
}

/// Encodes a packet into its wire bytes.
pub fn encode(p: &Packet) -> (r: Vec<u8>)
    requires
        packet_wf(*p),
    ensures
        r@ == encode_spec(*p),
{
    match p {
        Packet::Data { block_number, payload } => {
            let mut out: Vec<u8> = Vec::new();
            out.push(SOH);
            out.push(*block_number);
            out.push(255 - *block_number);
            let mut i: usize = 0;
            while i < payload.len()
                invariant
                    0 <= i <= payload@.len(),
                    out@.len() == 3 + i,
                    out@ == seq![SOH, *block_number, (255 - *block_number) as u8]
                        + payload@.subrange(0, i as int),
                decreases payload@.len() - i,
            {
                out.push(payload[i]);
                proof {
                    assert(payload@.subrange(0, i + 1)
                        =~= payload@.subrange(0, i as int).push(payload@[i as int]));
                    assert(out@ =~= seq![SOH, *block_number, (255 - *block_number) as u8]
                        + payload@.subrange(0, i + 1));
                }
                i = i + 1;
            }
            let cks = compute_checksum(payload);
            out.push(cks);
            proof {
                assert(payload@.subrange(0, payload@.len() as int) =~= payload@);
                assert(out@ =~= data_frame_spec(*block_number, payload@));
            }
            out
        },
        Packet::EndOfTransmission => vec![EOT],
        Packet::Acknowledge => vec![ACK],
        Packet::NegativeAcknowledge => vec![NAK],
        Packet::Cancel => vec![CAN],
        Packet::NegotiateChecksumMode => vec![NAK],
        Packet::NegotiateCrcMode => vec![CRC_REQUEST],
    }
}

/// The wire bytes of any well-formed packet.
pub open spec fn encode_spec(p: Packet) -> Seq<u8> {
    match p {
        Packet::Data { block_number, payload } => data_frame_spec(block_number, payload@),
        Packet::EndOfTransmission => seq![EOT],
        Packet::Acknowledge => seq![ACK],
        Packet::NegativeAcknowledge => seq![NAK],
        Packet::Cancel => seq![CAN],
        Packet::NegotiateChecksumMode => seq![NAK],
        Packet::NegotiateCrcMode => seq![CRC_REQUEST],
    }
}

/// Checks a raw 132-byte block: the block number must match its complement
/// byte and the payload must match its checksum. Returns the decoded data
/// packet, or says which check failed.
pub fn validate_data(raw: &Vec<u8>) -> (r: Result<Packet, FrameError>)
    requires
        raw@.len() == FRAME_LEN,
        raw@[0] == SOH,
    ensures
        raw@[1] + raw@[2] != 255 || raw@[1] == 0 ==> r == Err::<Packet, FrameError>(
            FrameError::MalformedBlockNumber,
        ),
        raw@[1] + raw@[2] == 255 && raw@[1] != 0 && checksum_spec(raw@.subrange(3, 131))
            != raw@[131] ==> r == Err::<Packet, FrameError>(FrameError::ChecksumMismatch),
        raw@[1] + raw@[2] == 255 && raw@[1] != 0 && checksum_spec(raw@.subrange(3, 131))
            == raw@[131] ==> (r matches Ok(p) && p matches Packet::Data {
            block_number,
            payload,
        } && block_number == raw@[1] && payload@ == raw@.subrange(3, 131)),
        r is Ok ==> packet_wf(r->Ok_0),
{
    let block = raw[1];
    let complement = raw[2];
    if block == 0 || complement != 255 - block {
        return Err(FrameError::MalformedBlockNumber);
    }
    let mut payload: Vec<u8> = Vec::new();
    let mut i: usize = 0;
    while i < PAYLOAD_LEN
        invariant
            0 <= i <= PAYLOAD_LEN,
            raw@.len() == FRAME_LEN,
            payload@ == raw@.subrange(3, 3 + i),
        decreases PAYLOAD_LEN - i,
    {
        payload.push(raw[3 + i]);
        proof {
            assert(raw@.subrange(3, 3 + (i + 1))
                =~= raw@.subrange(3, 3 + i as int).push(raw@[3 + i]));
        }
        i = i + 1;
    }
    let cks = compute_checksum(&payload);
    if cks != raw[131] {
        return Err(FrameError::ChecksumMismatch);
    }
    Ok(Packet::Data { block_number: block, payload })
}

/// The fields of an encoded data block sit at fixed offsets, so what was
/// encoded is exactly what validation recovers.
pub proof fn lemma_data_frame_fields(block: u8, payload: Seq<u8>)
    requires
        payload.len() == PAYLOAD_LEN,
    ensures
        data_frame_spec(block, payload).len() == FRAME_LEN,
        data_frame_spec(block, payload)[0] == SOH,
        data_frame_spec(block, payload)[1] == block,
        data_frame_spec(block, payload)[2] == 255 - block,
        data_frame_spec(block, payload).subrange(3, 131) == payload,
        data_frame_spec(block, payload)[131] == checksum_spec(payload),
{
    let f = data_frame_spec(block, payload);
    assert(f.subrange(3, 131) =~= payload);
}

/// Changing one byte of a sequence shifts its byte sum by exactly the
/// difference of the changed byte.
proof fn lemma_byte_sum_single_change(s1: Seq<u8>, s2: Seq<u8>, i: int)
    requires
        s1.len() == s2.len(),
        0 <= i < s1.len(),
        forall|j: int| 0 <= j < s1.len() && j != i ==> s1[j] == s2[j],
    ensures
        byte_sum(s1) - byte_sum(s2) == s1[i] - s2[i],
    decreases s1.len(),
{
    if i == s1.len() - 1 {
        assert(s1.drop_last() =~= s2.drop_last());
    } else {
        lemma_byte_sum_single_change(s1.drop_last(), s2.drop_last(), i);
    }
}

/// Two residues modulo 256 whose arguments differ by less than 256 are equal
/// only when the arguments are equal.
proof fn lemma_mod_shift_nonzero(a: int, d: int)
    requires
        -256 < d < 256,
        d != 0,
    ensures
        (a + d) % 256 != a % 256,
{
    vstd::arithmetic::div_mod::lemma_fundamental_div_mod(a + d, 256);
    vstd::arithmetic::div_mod::lemma_fundamental_div_mod(a, 256);
    let q1 = (a + d) / 256;
    let q2 = a / 256;
    if (a + d) % 256 == a % 256 {
        assert(d == 256 * (q1 - q2)) by (nonlinear_arith)
            requires
                a + d == 256 * q1 + (a + d) % 256,
                a == 256 * q2 + a % 256,
                (a + d) % 256 == a % 256,
        ;
        if q1 - q2 >= 1 {
            assert(d >= 256) by (nonlinear_arith)
                requires
                    d == 256 * (q1 - q2),
                    q1 - q2 >= 1,
            ;
        } else if q1 - q2 <= -1 {
            assert(d <= -256) by (nonlinear_arith)
                requires
                    d == 256 * (q1 - q2),
                    q1 - q2 <= -1,
            ;
        }
    }
}

/// Corrupting exactly one payload byte always changes the additive checksum,
/// so a single-byte corruption in transit is always detected.
pub proof fn lemma_single_corruption_detected(p: Seq<u8>, q: Seq<u8>, i: int)
    requires
        p.len() == q.len(),
        0 <= i < p.len(),
        p[i] != q[i],
        forall|j: int| 0 <= j < p.len() && j != i ==> p[j] == q[j],
    ensures
        checksum_spec(p) != checksum_spec(q),
{
    lemma_byte_sum_single_change(p, q, i);
    let d = p[i] - q[i];
    lemma_mod_shift_nonzero(byte_sum(q), d);
    vstd::arithmetic::div_mod::lemma_mod_bound(byte_sum(p), 256);
    vstd::arithmetic::div_mod::lemma_mod_bound(byte_sum(q), 256);
}

} // verus!
