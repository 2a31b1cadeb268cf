//! The wire format: round trips, the ack, and rejection of everything else.

use bw_player::codec::{Error, Signal, COMM_ACK_BYTE, FULL_DATA_BYTE};

fn frame_16() -> Vec<u8> {
    (1u8..=16).collect()
}

#[test]
fn opcode_values() {
    assert_eq!(FULL_DATA_BYTE, 0x03);
    assert_eq!(COMM_ACK_BYTE, 0x04);
}

#[test]
fn full_data_round_trip() {
    let p = frame_16();
    let signal = Signal::new(FULL_DATA_BYTE, Some(p.clone()), 16).unwrap();
    assert_eq!(signal, Signal::FullData(p.clone()));
    let (op, data) = signal.to_bytes();
    assert_eq!(op, FULL_DATA_BYTE);
    assert_eq!(data, Some(&p));
    let again = Signal::new(op, data.cloned(), 16).unwrap();
    assert_eq!(again, Signal::FullData(p));
}

#[test]
fn ack_round_trip_carries_no_payload() {
    let (op, data) = Signal::CommACK.to_bytes();
    assert_eq!(op, COMM_ACK_BYTE);
    assert_eq!(data, None);
    let decoded = Signal::new(op, None, 16).unwrap();
    assert_eq!(decoded, Signal::CommACK);
}

#[test]
fn ack_decodes_whatever_the_frame_size() {
    for fs in [1usize, 16, 1024] {
        assert_eq!(Signal::new(COMM_ACK_BYTE, None, fs).unwrap(), Signal::CommACK);
    }
}

#[test]
fn every_other_opcode_is_invalid() {
    for op in 0u8..=255 {
        if op == FULL_DATA_BYTE || op == COMM_ACK_BYTE {
            continue;
        }
        assert_eq!(Signal::new(op, None, 16), Err(Error::InvalidOpcode));
        assert_eq!(Signal::new(op, Some(frame_16()), 16), Err(Error::InvalidOpcode));
    }
}

#[test]
fn full_data_without_payload_is_missing_data() {
    assert_eq!(Signal::new(FULL_DATA_BYTE, None, 16), Err(Error::MissingData));
}

#[test]
fn full_data_with_short_payload_is_missing_data() {
    assert_eq!(
        Signal::new(FULL_DATA_BYTE, Some(vec![1, 2, 3]), 16),
        Err(Error::MissingData)
    );
}

#[test]
fn full_data_with_mismatched_payload_is_missing_data() {
    assert_eq!(
        Signal::new(FULL_DATA_BYTE, Some(vec![0; 17]), 16),
        Err(Error::MissingData)
    );
}

#[test]
fn has_data_only_for_the_frame_opcode() {
    assert!(Signal::has_data(FULL_DATA_BYTE));
    assert!(!Signal::has_data(COMM_ACK_BYTE));
    assert!(!Signal::has_data(0x00));
    assert!(!Signal::has_data(0xFF));
}
