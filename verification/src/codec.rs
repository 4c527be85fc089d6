//! Fixed-offset, little-endian layouts of the accounts the relay reads, and
//! the payload of the instruction it sends.

use vstd::prelude::*;
use crate::address::{address_of, Address};

verus! {

/// Shortest watched-account buffer that holds the counter.
pub const WATCHED_ACCOUNT_MIN_LEN: usize = 16;

/// Shortest counter-account buffer that holds both counters.
pub const COUNTER_ACCOUNT_MIN_LEN: usize = 24;

/// Size a transfer-descriptor account must at least have.
pub const DESCRIPTOR_MIN_LEN: usize = 87;

/// Exact size of the outbound instruction payload.
pub const PAYLOAD_LEN: usize = 24;

/// The layouts this module knows.
#[derive(Clone, Copy, Debug, PartialEq, Eq, Structural)]
pub enum Layout {
    WatchedAccount,
    CounterAccount,
    TransferDescriptor,
    InstructionPayload,
}

/// Why a buffer could not be decoded.
#[derive(Clone, Copy, Debug, PartialEq, Eq, Structural)]
pub enum DecodeError {
    /// The buffer is shorter than the layout needs.
    TooShort { layout: Layout, expected: usize, actual: usize },
    /// The payload does not start with the relay-transfer opcode.
    UnknownOpcode,
}

/// The number that eight bytes spell in little-endian order.
pub open spec fn le_u64(s: Seq<u8>) -> int
    recommends
        s.len() == 8,
{
    s[0] as int + 0x100 * (s[1] as int + 0x100 * (s[2] as int + 0x100 * (s[3] as int + 0x100 * (
    s[4] as int + 0x100 * (s[5] as int + 0x100 * (s[6] as int + 0x100 * (s[7] as int)))))))
}

/// The eight bytes that spell `x` in little-endian order.
pub open spec fn u64_le_bytes(x: u64) -> Seq<u8> {
    let x1 = x / 0x100;
    let x2 = x1 / 0x100;
    let x3 = x2 / 0x100;
    let x4 = x3 / 0x100;
    let x5 = x4 / 0x100;
    let x6 = x5 / 0x100;
    let x7 = x6 / 0x100;
    seq![
        (x % 0x100) as u8,
        (x1 % 0x100) as u8,
        (x2 % 0x100) as u8,
        (x3 % 0x100) as u8,
        (x4 % 0x100) as u8,
        (x5 % 0x100) as u8,
        (x6 % 0x100) as u8,
        (x7 % 0x100) as u8,
    ]
}

/// The opcode that marks a relay transfer on the destination program.
pub open spec fn relay_opcode() -> Seq<u8> {
    seq![187u8, 90u8, 182u8, 138u8, 51u8, 248u8, 175u8, 98u8]
}

/// The payload that carries `amount` and `counter`.
pub open spec fn payload_bytes(amount: u64, counter: u64) -> Seq<u8> {
    relay_opcode() + u64_le_bytes(amount) + u64_le_bytes(counter)
}

/// The eight bytes of `s` that start at `offset`, read as a number.
pub open spec fn field_u64(s: Seq<u8>, offset: int) -> int
    recommends
        0 <= offset,
        offset + 8 <= s.len(),
{
    le_u64(s.subrange(offset, offset + 8))
}

/// Writing a number and reading it back gives the number.
pub proof fn lemma_le_u64_of_bytes(x: u64)
    ensures
        u64_le_bytes(x).len() == 8,
        le_u64(u64_le_bytes(x)) == x,
{
}

/// Reads the little-endian number in `data[offset..offset + 8]`.
pub fn read_u64_le(data: &[u8], offset: usize) -> (v: u64)
    requires
        offset + 8 <= data@.len(),
    ensures
        v == field_u64(data@, offset as int),
{
    let b0: u64 = data[offset] as u64;
    let b1: u64 = data[offset + 1] as u64;
    let b2: u64 = data[offset + 2] as u64;
    let b3: u64 = data[offset + 3] as u64;
    let b4: u64 = data[offset + 4] as u64;
    let b5: u64 = data[offset + 5] as u64;
    let b6: u64 = data[offset + 6] as u64;
    let b7: u64 = data[offset + 7] as u64;
    let v6: u64 = b6 + 0x100 * b7;
    let v5: u64 = b5 + 0x100 * v6;
    let v4: u64 = b4 + 0x100 * v5;
    let v3: u64 = b3 + 0x100 * v4;
    let v2: u64 = b2 + 0x100 * v3;
    let v1: u64 = b1 + 0x100 * v2;
    let v0: u64 = b0 + 0x100 * v1;
    v0
}

/// Appends the little-endian bytes of `x` to `out`.
pub fn append_u64_le(out: &mut Vec<u8>, x: u64)
    ensures
        final(out)@ == old(out)@ + u64_le_bytes(x),
{
    let x1: u64 = x / 0x100;
    let x2: u64 = x1 / 0x100;
    let x3: u64 = x2 / 0x100;
    let x4: u64 = x3 / 0x100;
    let x5: u64 = x4 / 0x100;
    let x6: u64 = x5 / 0x100;
    let x7: u64 = x6 / 0x100;
    out.push((x % 0x100) as u8);
    out.push((x1 % 0x100) as u8);
    out.push((x2 % 0x100) as u8);
    out.push((x3 % 0x100) as u8);
    out.push((x4 % 0x100) as u8);
    out.push((x5 % 0x100) as u8);
    out.push((x6 % 0x100) as u8);
    out.push((x7 % 0x100) as u8);
    assert(out@ =~= old(out)@ + u64_le_bytes(x));
}

/// Snapshot of the watched account: the counter of recorded transfers.
#[derive(Clone, Copy, Debug, PartialEq, Eq, Structural)]
pub struct NonceStatus {
    pub nonce: u64,
}

/// Snapshot of the destination counter-account.
#[derive(Clone, Copy, Debug, PartialEq, Eq, Structural)]
pub struct DestinationCounterState {
    pub source_mirror_counter: u64,
    pub destination_counter: u64,
}

/// One recorded transfer: where it goes and how much.
#[derive(Clone, Copy, Debug, PartialEq, Eq)]
pub struct TransferDescriptor {
    pub destination_address: Address,
    pub amount: u64,
}

/// What decoding a watched-account buffer yields.
pub open spec fn watched_account_of(data: Seq<u8>) -> Result<NonceStatus, DecodeError> {
    if data.len() < 16 {
        Err(
            DecodeError::TooShort {
                layout: Layout::WatchedAccount,
                expected: 16,
                actual: data.len() as usize,
            },
        )
    } else {
        Ok(NonceStatus { nonce: field_u64(data, 8) as u64 })
    }
}

/// What decoding a counter-account buffer yields.
pub open spec fn counter_account_of(data: Seq<u8>) -> Result<DestinationCounterState, DecodeError> {
    if data.len() < 24 {
        Err(
            DecodeError::TooShort {
                layout: Layout::CounterAccount,
                expected: 24,
                actual: data.len() as usize,
            },
        )
    } else {
        Ok(
            DestinationCounterState {
                source_mirror_counter: field_u64(data, 8) as u64,
                destination_counter: field_u64(data, 16) as u64,
            },
        )
    }
}

/// What decoding a descriptor buffer yields.
pub open spec fn descriptor_of(data: Seq<u8>) -> Result<TransferDescriptor, DecodeError> {
    if data.len() < 87 {
        Err(
            DecodeError::TooShort {
                layout: Layout::TransferDescriptor,
                expected: 87,
                actual: data.len() as usize,
            },
        )
    } else {
        Ok(
            TransferDescriptor {
                destination_address: address_of(data.subrange(40, 72)),
                amount: field_u64(data, 72) as u64,
            },
        )
    }
}

/// What decoding an instruction payload yields: the amount and the counter.
pub open spec fn payload_of(data: Seq<u8>) -> Result<(u64, u64), DecodeError> {
    if data.len() < 24 {
        Err(
            DecodeError::TooShort {
                layout: Layout::InstructionPayload,
                expected: 24,
                actual: data.len() as usize,
            },
        )
    } else if data.subrange(0, 8) != relay_opcode() {
        Err(DecodeError::UnknownOpcode)
    } else {
        Ok((field_u64(data, 8) as u64, field_u64(data, 16) as u64))
    }
}

impl NonceStatus {
    /// Decodes the counter at bytes 8..16 of a watched-account buffer.
    pub fn from_bytes(data: &[u8]) -> (r: Result<NonceStatus, DecodeError>)
        ensures
            r == watched_account_of(data@),
    {
        if data.len() < WATCHED_ACCOUNT_MIN_LEN {
            return Err(
                DecodeError::TooShort {
                    layout: Layout::WatchedAccount,
                    expected: WATCHED_ACCOUNT_MIN_LEN,
                    actual: data.len(),
                },
            );
        }
        Ok(NonceStatus { nonce: read_u64_le(data, 8) })
    }
}

impl DestinationCounterState {
    /// Decodes the two counters at bytes 8..16 and 16..24 of a
    /// counter-account buffer.
    pub fn from_bytes(data: &[u8]) -> (r: Result<DestinationCounterState, DecodeError>)
        ensures
            r == counter_account_of(data@),
    {
        if data.len() < COUNTER_ACCOUNT_MIN_LEN {
            return Err(
                DecodeError::TooShort {
                    layout: Layout::CounterAccount,
                    expected: COUNTER_ACCOUNT_MIN_LEN,
                    actual: data.len(),
                },
            );
        }
        Ok(
            DestinationCounterState {
                source_mirror_counter: read_u64_le(data, 8),
                destination_counter: read_u64_le(data, 16),
            },
        )
    }
}

impl TransferDescriptor {
    /// Decodes the destination address at bytes 40..72 and the amount at
    /// bytes 72..80 of a descriptor buffer of at least 87 bytes.
    pub fn from_bytes(data: &[u8]) -> (r: Result<TransferDescriptor, DecodeError>)
        ensures
            r == descriptor_of(data@),
            r is Ok ==> r->Ok_0.destination_address@ == data@.subrange(40, 72),
    {
        if data.len() < DESCRIPTOR_MIN_LEN {
            return Err(
                DecodeError::TooShort {
                    layout: Layout::TransferDescriptor,
                    expected: DESCRIPTOR_MIN_LEN,
                    actual: data.len(),
                },
            );
        }
        let destination_address = Address::from_slice(data, 40);
        let amount = read_u64_le(data, 72);
        Ok(TransferDescriptor { destination_address, amount })
    }
}

/// Encodes the instruction payload: opcode, amount, counter.
pub fn encode_payload(amount: u64, counter: u64) -> (out: Vec<u8>)
    ensures
        out@ == payload_bytes(amount, counter),
        out@.len() == 24,
{
    let mut out: Vec<u8> = Vec::with_capacity(PAYLOAD_LEN);
    out.push(187u8);
    out.push(90u8);
    out.push(182u8);
    out.push(138u8);
    out.push(51u8);
    out.push(248u8);
    out.push(175u8);
    out.push(98u8);
    assert(out@ =~= relay_opcode());
    append_u64_le(&mut out, amount);
    append_u64_le(&mut out, counter);
    out
}

/// Decodes an instruction payload back into its amount and counter.
pub fn decode_payload(data: &[u8]) -> (r: Result<(u64, u64), DecodeError>)
    ensures
        r == payload_of(data@),
{
    if data.len() < PAYLOAD_LEN {
        return Err(
            DecodeError::TooShort {
                layout: Layout::InstructionPayload,
                expected: PAYLOAD_LEN,
                actual: data.len(),
            },
        );
    }
    if data[0] != 187u8 || data[1] != 90u8 || data[2] != 182u8 || data[3] != 138u8 || data[4]
        != 51u8 || data[5] != 248u8 || data[6] != 175u8 || data[7] != 98u8 {
        assert(data@.subrange(0, 8) != relay_opcode()) by {
            let head = data@.subrange(0, 8);
            assert(forall|k: int| 0 <= k < 8 ==> head[k] == data@[k]);
        }
        return Err(DecodeError::UnknownOpcode);
    }
    assert(data@.subrange(0, 8) =~= relay_opcode());
    Ok((read_u64_le(data, 8), read_u64_le(data, 16)))
}

/// Decoding an encoded payload gives back the amount and the counter it was
/// made from.
pub proof fn lemma_payload_round_trip(amount: u64, counter: u64)
    ensures
        payload_bytes(amount, counter).len() == 24,
        payload_of(payload_bytes(amount, counter)) == Ok::<(u64, u64), DecodeError>(
            (amount, counter),
        ),
{
    let p = payload_bytes(amount, counter);
    lemma_le_u64_of_bytes(amount);
    lemma_le_u64_of_bytes(counter);
    assert(p.subrange(0, 8) =~= relay_opcode());
    assert(p.subrange(8, 16) =~= u64_le_bytes(amount));
    assert(p.subrange(16, 24) =~= u64_le_bytes(counter));
}

/// A buffer below a layout's minimum length decodes to the length error that
/// names the layout, the minimum and the buffer's length.
pub proof fn lemma_short_buffers_rejected(data: Seq<u8>)
    requires
        data.len() <= usize::MAX,
    ensures
        data.len() < 16 ==> watched_account_of(data) == Err::<NonceStatus, DecodeError>(
            DecodeError::TooShort {
                layout: Layout::WatchedAccount,
                expected: 16,
                actual: data.len() as usize,
            },
        ),
        data.len() < 24 ==> counter_account_of(data) == Err::<
            DestinationCounterState,
            DecodeError,
        >(
            DecodeError::TooShort {
                layout: Layout::CounterAccount,
                expected: 24,
                actual: data.len() as usize,
            },
        ),
        data.len() < 87 ==> descriptor_of(data) == Err::<TransferDescriptor, DecodeError>(
            DecodeError::TooShort {
                layout: Layout::TransferDescriptor,
                expected: 87,
                actual: data.len() as usize,
            },
        ),
        data.len() >= 16 ==> watched_account_of(data) is Ok,
        data.len() >= 24 ==> counter_account_of(data) is Ok,
        data.len() >= 87 ==> descriptor_of(data) is Ok,
{
}

} // verus!
