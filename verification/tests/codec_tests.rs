use crosschain_hub::codec::{
    decode_bridge_message, encode_bridge_message, CodecError, CrossChainMessage, MessageType,
};
use crosschain_hub::identity::Identity;

fn sample_message() -> CrossChainMessage {
    CrossChainMessage {
        id: "transfer-0001".to_string(),
        source_chain: 1,
        destination_chain: 42161,
        sender: Identity::new_from_array([5u8; 32]),
        recipient: Identity::new_from_array([6u8; 32]),
        message_type: MessageType::TokenTransfer,
        payload: vec![1, 2, 3, 4, 5],
        nonce: 99,
        timestamp: 1_700_000_000,
    }
}

fn assert_messages_equal(a: &CrossChainMessage, b: &CrossChainMessage) {
    assert_eq!(a.id, b.id);
    assert_eq!(a.source_chain, b.source_chain);
    assert_eq!(a.destination_chain, b.destination_chain);
    assert_eq!(a.sender, b.sender);
    assert_eq!(a.recipient, b.recipient);
    assert_eq!(a.message_type, b.message_type);
    assert_eq!(a.payload, b.payload);
    assert_eq!(a.nonce, b.nonce);
    assert_eq!(a.timestamp, b.timestamp);
}

#[test]
fn test_message_round_trip() {
    let message = sample_message();
    let encoded = encode_bridge_message(&message);
    let decoded = decode_bridge_message(&encoded).unwrap();
    assert_messages_equal(&message, &decoded);
}

#[test]
fn test_message_round_trip_edge_values() {
    let message = CrossChainMessage {
        id: "".to_string(),
        source_chain: u64::MAX,
        destination_chain: 0,
        sender: Identity::new_from_array([0u8; 32]),
        recipient: Identity::new_from_array([255u8; 32]),
        message_type: MessageType::ContractCallWithToken,
        payload: vec![],
        nonce: u64::MAX,
        timestamp: i64::MIN,
    };
    let decoded = decode_bridge_message(&encode_bridge_message(&message)).unwrap();
    assert_messages_equal(&message, &decoded);
}

#[test]
fn test_message_round_trip_unicode_id() {
    let message = CrossChainMessage {
        id: "überweisung-Ω-桥".to_string(),
        timestamp: -42,
        ..sample_message()
    };
    let decoded = decode_bridge_message(&encode_bridge_message(&message)).unwrap();
    assert_messages_equal(&message, &decoded);
}

#[test]
fn test_message_exact_bytes() {
    let message = CrossChainMessage {
        id: "ab".to_string(),
        source_chain: 1,
        destination_chain: 2,
        sender: Identity::new_from_array([5u8; 32]),
        recipient: Identity::new_from_array([6u8; 32]),
        message_type: MessageType::TokenReceive,
        payload: vec![0xAA, 0xBB],
        nonce: 7,
        timestamp: -1,
    };
    let mut expected: Vec<u8> = Vec::new();
    expected.extend_from_slice(&[2, 0, 0, 0]);
    expected.extend_from_slice(&[97, 98]);
    expected.extend_from_slice(&[1, 0, 0, 0, 0, 0, 0, 0]);
    expected.extend_from_slice(&[2, 0, 0, 0, 0, 0, 0, 0]);
    expected.extend_from_slice(&[5u8; 32]);
    expected.extend_from_slice(&[6u8; 32]);
    expected.push(1);
    expected.extend_from_slice(&[2, 0, 0, 0]);
    expected.extend_from_slice(&[0xAA, 0xBB]);
    expected.extend_from_slice(&[7, 0, 0, 0, 0, 0, 0, 0]);
    expected.extend_from_slice(&[0xFF; 8]);
    assert_eq!(encode_bridge_message(&message), expected);
}

#[test]
fn test_decode_rejects_truncated_input() {
    assert_eq!(
        decode_bridge_message(&[]).unwrap_err(),
        CodecError::Malformed
    );
    assert_eq!(
        decode_bridge_message(&[1, 2, 3]).unwrap_err(),
        CodecError::Malformed
    );

    let encoded = encode_bridge_message(&sample_message());
    let truncated = &encoded[..encoded.len() - 1];
    assert_eq!(
        decode_bridge_message(truncated).unwrap_err(),
        CodecError::Malformed
    );
}

#[test]
fn test_decode_rejects_oversized_length_prefix() {
    // A length prefix pointing past the end of the buffer.
    let data = vec![10, 0, 0, 0, 97, 98];
    assert_eq!(
        decode_bridge_message(&data).unwrap_err(),
        CodecError::Malformed
    );
}

#[test]
fn test_decode_rejects_unknown_discriminant() {
    let message = sample_message();
    let mut encoded = encode_bridge_message(&message);
    // The kind byte sits after the length-prefixed id, two chain words and
    // both 32-byte identities.
    let kind_at = 4 + message.id.len() + 8 + 8 + 32 + 32;
    encoded[kind_at] = 4;
    assert_eq!(
        decode_bridge_message(&encoded).unwrap_err(),
        CodecError::Malformed
    );
}

#[test]
fn test_decode_rejects_trailing_bytes() {
    let mut encoded = encode_bridge_message(&sample_message());
    encoded.push(0);
    assert_eq!(
        decode_bridge_message(&encoded).unwrap_err(),
        CodecError::Malformed
    );
}

#[test]
fn test_decode_rejects_malformed_utf8_id() {
    let mut data: Vec<u8> = Vec::new();
    data.extend_from_slice(&[1, 0, 0, 0]);
    data.push(0xFF);
    // Pad out the rest of a structurally well-formed, empty-payload
    // message: chains and identities, a valid kind byte, a zero payload
    // length, and the nonce and timestamp words.
    data.extend_from_slice(&[0u8; 80]);
    data.push(0);
    data.extend_from_slice(&[0, 0, 0, 0]);
    data.extend_from_slice(&[0u8; 16]);
    assert_eq!(
        decode_bridge_message(&data).unwrap_err(),
        CodecError::Malformed
    );
}
