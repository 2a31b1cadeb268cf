//! The frame pump: the per-frame step sequence, one frame in flight at a
//! time, and the transient/fatal read classification.

use bw_player::codec::{COMM_ACK_BYTE, FULL_DATA_BYTE};
use bw_player::sender::{pacing_wait_ms, Sender, SenderFault, SenderPhase};

fn frame(n: usize) -> Vec<u8> {
    (0..n).map(|i| i as u8).collect()
}

/// Drive one frame up to the ack wait, with the payload flushed in the
/// given partial-write sizes.
fn pump_to_await_ack(tx: &mut Sender, n: usize, writes: &[usize]) {
    assert_eq!(tx.phase(), SenderPhase::Ready);
    tx.start_frame(frame(n));
    assert_eq!(tx.phase(), SenderPhase::SendOpcode);
    assert_eq!(tx.opcode_byte(), FULL_DATA_BYTE);
    tx.on_opcode_sent();
    assert_eq!(tx.phase(), SenderPhase::Guard);
    tx.on_guard_elapsed();
    assert_eq!(tx.phase(), SenderPhase::SendPayload);
    let mut flushed = 0;
    for (i, &k) in writes.iter().enumerate() {
        assert_eq!(tx.written(), flushed);
        tx.on_payload_written(k);
        flushed += k;
        if i + 1 < writes.len() {
            assert_eq!(tx.phase(), SenderPhase::SendPayload);
        }
    }
    assert_eq!(flushed, n);
    assert_eq!(tx.phase(), SenderPhase::AwaitAck);
}

#[test]
fn one_frame_start_to_ack() {
    let mut tx = Sender::new(16);
    pump_to_await_ack(&mut tx, 16, &[16]);
    tx.on_ack_byte(COMM_ACK_BYTE);
    assert_eq!(tx.phase(), SenderPhase::Ready);
}

#[test]
fn partial_writes_are_continued_not_errors() {
    let mut tx = Sender::new(16);
    pump_to_await_ack(&mut tx, 16, &[3, 5, 1, 7]);
    tx.on_ack_byte(COMM_ACK_BYTE);
    assert_eq!(tx.phase(), SenderPhase::Ready);
}

#[test]
fn next_frame_waits_for_the_ack() {
    // At most one frame in flight: from the opcode write to the ack the pump
    // never reports Ready, the one state in which a frame may start; only
    // the observed ack reopens it.
    let mut tx = Sender::new(4);
    tx.start_frame(frame(4));
    assert_ne!(tx.phase(), SenderPhase::Ready);
    tx.on_opcode_sent();
    assert_ne!(tx.phase(), SenderPhase::Ready);
    tx.on_guard_elapsed();
    assert_ne!(tx.phase(), SenderPhase::Ready);
    tx.on_payload_written(4);
    assert_ne!(tx.phase(), SenderPhase::Ready);
    for _ in 0..100 {
        tx.on_ack_timeout();
        assert_ne!(tx.phase(), SenderPhase::Ready);
    }
    tx.on_ack_byte(COMM_ACK_BYTE);
    assert_eq!(tx.phase(), SenderPhase::Ready);
    // and a second frame runs through the same gate
    pump_to_await_ack(&mut tx, 4, &[4]);
    tx.on_ack_byte(COMM_ACK_BYTE);
    assert_eq!(tx.phase(), SenderPhase::Ready);
}

#[test]
fn timeouts_never_fail_the_ack_wait() {
    let mut tx = Sender::new(4);
    pump_to_await_ack(&mut tx, 4, &[4]);
    for _ in 0..10_000 {
        tx.on_ack_timeout();
        assert_eq!(tx.phase(), SenderPhase::AwaitAck);
    }
    tx.on_ack_byte(COMM_ACK_BYTE);
    assert_eq!(tx.phase(), SenderPhase::Ready);
}

#[test]
fn hard_read_error_aborts_on_first_sight() {
    let mut tx = Sender::new(4);
    pump_to_await_ack(&mut tx, 4, &[4]);
    tx.on_read_fault();
    assert_eq!(tx.phase(), SenderPhase::Failed(SenderFault::AckRead));
}

#[test]
fn non_ack_byte_is_a_protocol_violation() {
    let mut tx = Sender::new(4);
    pump_to_await_ack(&mut tx, 4, &[4]);
    tx.on_ack_byte(0x03);
    assert_eq!(tx.phase(), SenderPhase::Failed(SenderFault::Protocol(0x03)));
}

#[test]
fn opcode_write_fault_names_its_step() {
    let mut tx = Sender::new(4);
    tx.start_frame(frame(4));
    tx.on_write_fault();
    assert_eq!(tx.phase(), SenderPhase::Failed(SenderFault::OpcodeWrite));
}

#[test]
fn payload_write_fault_names_its_step() {
    let mut tx = Sender::new(4);
    tx.start_frame(frame(4));
    tx.on_opcode_sent();
    tx.on_guard_elapsed();
    tx.on_payload_written(2);
    tx.on_write_fault();
    assert_eq!(tx.phase(), SenderPhase::Failed(SenderFault::PayloadWrite));
}

#[test]
fn frame_exposes_the_payload_in_flight() {
    let mut tx = Sender::new(6);
    tx.start_frame(vec![9, 8, 7, 6, 5, 4]);
    assert_eq!(tx.frame(), &vec![9, 8, 7, 6, 5, 4]);
}

#[test]
fn pacing_waits_the_unspent_interval() {
    assert_eq!(pacing_wait_ms(10, 33), 23);
    assert_eq!(pacing_wait_ms(0, 33), 33);
}

#[test]
fn pacing_never_catches_up() {
    assert_eq!(pacing_wait_ms(33, 33), 0);
    assert_eq!(pacing_wait_ms(100, 33), 0);
}
