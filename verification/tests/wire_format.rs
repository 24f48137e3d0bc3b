//! The wire format: round trips, strict rejection of malformed bytes,
//! and byte-for-byte agreement with the SCALE encoding of the same
//! primitive fields.

use parity_scale_codec::{Compact, Encode};
use xchange::types::{OrderBase, XCMPMessage};
use xchange::wire::{decode_message, encode_message};

fn roundtrip(m: XCMPMessage) {
    let bytes = encode_message(&m);
    assert_eq!(decode_message(&bytes), Some(m));
}

#[test]
fn every_variant_round_trips() {
    roundtrip(XCMPMessage::OrderAccept(1, 2));
    roundtrip(XCMPMessage::OrderReject(3, 4, true));
    roundtrip(XCMPMessage::OrderReject(3, 4, false));
    roundtrip(XCMPMessage::OrderDone(u64::MAX, 0, true));
    roundtrip(XCMPMessage::OrderDone(5, 6, false));
    roundtrip(XCMPMessage::NewOrder(
        7,
        OrderBase { until: 8, data: vec![], fee: 9, device: 10 },
    ));
    roundtrip(XCMPMessage::NewOrder(
        7,
        OrderBase { until: u64::MAX, data: vec![0xAB; 5], fee: 0, device: 10 },
    ));
}

#[test]
fn payload_length_prefix_round_trips_at_its_mode_boundaries() {
    for len in [0usize, 1, 63, 64, 300, 16_383, 16_384, 70_000] {
        roundtrip(XCMPMessage::NewOrder(
            1,
            OrderBase { until: 2, data: vec![7; len], fee: 3, device: 4 },
        ));
    }
}

#[test]
fn malformed_bytes_are_rejected() {
    // Empty, unknown tag, truncated, oversized.
    assert_eq!(decode_message(&vec![]), None);
    assert_eq!(decode_message(&vec![4]), None);
    assert_eq!(decode_message(&vec![1; 16]), None);
    let ok = encode_message(&XCMPMessage::OrderAccept(1, 2));
    let mut truncated = ok.clone();
    truncated.pop();
    assert_eq!(decode_message(&truncated), None);
    let mut trailing = ok.clone();
    trailing.push(0);
    assert_eq!(decode_message(&trailing), None);

    // A flag byte has to be zero or one.
    let mut bad_flag = encode_message(&XCMPMessage::OrderDone(1, 2, true));
    let last = bad_flag.len() - 1;
    bad_flag[last] = 2;
    assert_eq!(decode_message(&bad_flag), None);

    // A payload shorter or longer than its prefix says.
    let ok = encode_message(&XCMPMessage::NewOrder(
        1,
        OrderBase { until: 2, data: vec![5, 5], fee: 3, device: 4 },
    ));
    let mut short = ok.clone();
    short.pop();
    assert_eq!(decode_message(&short), None);
    let mut long = ok.clone();
    long.push(0);
    assert_eq!(decode_message(&long), None);
}

#[test]
fn non_minimal_length_prefixes_are_rejected() {
    // A five-byte payload with its length spelled in the two-byte form:
    // tag, client, until, the padded prefix, five bytes, fee, device.
    let mut bytes = vec![0u8];
    bytes.extend(1u64.encode());
    bytes.extend(2u64.encode());
    bytes.extend(vec![(5u8 << 2) | 1, 0]);
    bytes.extend(vec![9u8; 5]);
    bytes.extend(3u64.encode());
    bytes.extend(4u64.encode());
    assert_eq!(decode_message(&bytes), None);
}

#[test]
fn scalars_match_their_scale_encoding() {
    for n in [0u64, 1, 0xFF, 0x1234_5678_9ABC_DEF0, u64::MAX] {
        let ours = encode_message(&XCMPMessage::OrderAccept(n, 0));
        assert_eq!(ours[1..9], n.encode()[..]);
    }
}

#[test]
fn compact_length_matches_its_scale_encoding() {
    for len in [0usize, 1, 63, 64, 16_383, 16_384, 70_000] {
        let data = vec![7u8; len];
        let ours = encode_message(&XCMPMessage::NewOrder(
            1,
            OrderBase { until: 2, data, fee: 3, device: 4 },
        ));
        let prefix = Compact(len as u32).encode();
        assert_eq!(ours[17..17 + prefix.len()], prefix[..]);
    }
}

#[test]
fn whole_messages_match_the_scale_encoding_of_their_fields() {
    let client = 11u64;
    let device = 22u64;
    let until = 33u64;
    let fee = 44u64;
    let data = vec![1u8, 2, 3, 4];

    let mut expected = 0u8.encode();
    expected.extend(client.encode());
    expected.extend(until.encode());
    expected.extend(data.encode());
    expected.extend(fee.encode());
    expected.extend(device.encode());
    let base = OrderBase { until, data, fee, device };
    assert_eq!(encode_message(&XCMPMessage::NewOrder(client, base)), expected);

    let mut expected = 1u8.encode();
    expected.extend(client.encode());
    expected.extend(device.encode());
    assert_eq!(
        encode_message(&XCMPMessage::OrderAccept(client, device)),
        expected
    );

    let mut expected = 2u8.encode();
    expected.extend(client.encode());
    expected.extend(device.encode());
    expected.extend(true.encode());
    assert_eq!(
        encode_message(&XCMPMessage::OrderReject(client, device, true)),
        expected
    );

    let mut expected = 3u8.encode();
    expected.extend(client.encode());
    expected.extend(device.encode());
    expected.extend(false.encode());
    assert_eq!(
        encode_message(&XCMPMessage::OrderDone(client, device, false)),
        expected
    );
}
