use bridge_relayer::address::Address;
use bridge_relayer::codec::{
    decode_payload, encode_payload, DecodeError, DestinationCounterState, Layout, NonceStatus,
    TransferDescriptor,
};

fn buffer_with(len: usize, fields: &[(usize, u64)]) -> Vec<u8> {
    let mut data = vec![0xEEu8; len];
    for (offset, value) in fields {
        data[*offset..*offset + 8].copy_from_slice(&value.to_le_bytes());
    }
    data
}

#[test]
fn watched_account_counter_is_read_at_offset_eight() {
    let data = buffer_with(16, &[(8, 0x0102_0304_0506_0708)]);
    assert_eq!(NonceStatus::from_bytes(&data), Ok(NonceStatus { nonce: 0x0102_0304_0506_0708 }));
    let longer = buffer_with(40, &[(8, 7)]);
    assert_eq!(NonceStatus::from_bytes(&longer), Ok(NonceStatus { nonce: 7 }));
}

#[test]
fn watched_account_counter_covers_the_whole_range() {
    for value in [0u64, 1, 255, 256, 65_535, 1 << 32, u64::MAX - 1, u64::MAX] {
        let data = buffer_with(16, &[(8, value)]);
        assert_eq!(NonceStatus::from_bytes(&data), Ok(NonceStatus { nonce: value }));
    }
}

#[test]
fn watched_account_shorter_than_sixteen_is_rejected() {
    for len in [0usize, 1, 8, 15] {
        let data = vec![1u8; len];
        assert_eq!(
            NonceStatus::from_bytes(&data),
            Err(DecodeError::TooShort { layout: Layout::WatchedAccount, expected: 16, actual: len })
        );
    }
}

#[test]
fn counter_account_holds_both_counters() {
    let data = buffer_with(24, &[(8, 7), (16, 5)]);
    assert_eq!(
        DestinationCounterState::from_bytes(&data),
        Ok(DestinationCounterState { source_mirror_counter: 7, destination_counter: 5 })
    );
    let data = buffer_with(64, &[(8, u64::MAX), (16, 0)]);
    assert_eq!(
        DestinationCounterState::from_bytes(&data),
        Ok(DestinationCounterState { source_mirror_counter: u64::MAX, destination_counter: 0 })
    );
}

#[test]
fn counter_account_shorter_than_twenty_four_is_rejected() {
    for len in [0usize, 16, 23] {
        let data = vec![9u8; len];
        assert_eq!(
            DestinationCounterState::from_bytes(&data),
            Err(DecodeError::TooShort { layout: Layout::CounterAccount, expected: 24, actual: len })
        );
    }
}

#[test]
fn descriptor_holds_destination_and_amount() {
    let mut data = buffer_with(87, &[(72, 1000)]);
    for i in 0..32 {
        data[40 + i] = (i as u8) + 1;
    }
    let mut expected = [0u8; 32];
    for i in 0..32 {
        expected[i] = (i as u8) + 1;
    }
    assert_eq!(
        TransferDescriptor::from_bytes(&data),
        Ok(TransferDescriptor { destination_address: Address { bytes: expected }, amount: 1000 })
    );
}

#[test]
fn descriptor_shorter_than_eighty_seven_is_rejected() {
    for len in [0usize, 80, 86] {
        let data = vec![3u8; len];
        assert_eq!(
            TransferDescriptor::from_bytes(&data),
            Err(DecodeError::TooShort {
                layout: Layout::TransferDescriptor,
                expected: 87,
                actual: len
            })
        );
    }
}

#[test]
fn payload_is_opcode_amount_counter() {
    let payload = encode_payload(1000, 5);
    assert_eq!(
        payload,
        vec![
            187, 90, 182, 138, 51, 248, 175, 98, 0xE8, 0x03, 0, 0, 0, 0, 0, 0, 5, 0, 0, 0, 0, 0, 0,
            0
        ]
    );
    assert_eq!(payload.len(), 24);
}

#[test]
fn payload_matches_the_standard_little_endian_form() {
    for (amount, counter) in [(0u64, 0u64), (0x1122_3344_5566_7788, 0x99AA_BBCC_DDEE_FF00)] {
        let mut expected = vec![187u8, 90, 182, 138, 51, 248, 175, 98];
        expected.extend_from_slice(&amount.to_le_bytes());
        expected.extend_from_slice(&counter.to_le_bytes());
        assert_eq!(encode_payload(amount, counter), expected);
    }
}

#[test]
fn payload_round_trip_at_the_edges_and_between() {
    for (amount, counter) in [
        (0u64, 0u64),
        (u64::MAX, u64::MAX),
        (0, u64::MAX),
        (u64::MAX, 0),
        (1000, 5),
        (123_456_789_012, 42),
        (1 << 63, (1 << 32) + 1),
    ] {
        let payload = encode_payload(amount, counter);
        assert_eq!(decode_payload(&payload), Ok((amount, counter)));
    }
}

#[test]
fn payload_shorter_than_twenty_four_is_rejected() {
    let payload = encode_payload(1, 2);
    assert_eq!(
        decode_payload(&payload[..23]),
        Err(DecodeError::TooShort { layout: Layout::InstructionPayload, expected: 24, actual: 23 })
    );
    assert_eq!(
        decode_payload(&[]),
        Err(DecodeError::TooShort { layout: Layout::InstructionPayload, expected: 24, actual: 0 })
    );
}

#[test]
fn payload_with_another_opcode_is_rejected() {
    let mut payload = encode_payload(1, 2);
    payload[7] = 99;
    assert_eq!(decode_payload(&payload), Err(DecodeError::UnknownOpcode));
}

#[test]
fn address_is_copied_from_the_offset() {
    let data: Vec<u8> = (0u8..64).collect();
    let a = Address::from_slice(&data, 3);
    assert_eq!(a.bytes.to_vec(), data[3..35].to_vec());
    assert_eq!(a, Address::new(a.bytes));
    assert_ne!(a, Address::from_slice(&data, 4));
}
