//! Configuration handshake decisions.

use navdisplay::gps::Packet;
use navdisplay::handshake::{
    check_ack, command_bytes, expected_ack, init_transition, AckStatus, InitStep,
};

#[test]
fn matching_ack_advances_others_fail() {
    let ack = Packet::Ack { class: 6, msg_id: 0 };
    assert_eq!(check_ack(&ack, 6, 0), AckStatus::Found);
    // A foreign acknowledgement fails the step.
    assert_eq!(check_ack(&ack, 6, 8), AckStatus::Failed);
    // Any other message fails the step.
    assert_eq!(check_ack(&Packet::Version, 6, 0), AckStatus::Failed);
    assert_eq!(check_ack(&Packet::Malformed, 6, 0), AckStatus::Failed);
    assert_eq!(check_ack(&Packet::Odometer(1), 6, 0), AckStatus::Failed);
}

#[test]
fn sequence_advances_step_by_step() {
    let mut s = InitStep::SetProtocol;
    let order = [
        InitStep::SetRate,
        InitStep::EnablePvt,
        InitStep::EnableOdo,
        InitStep::RequestVersion,
        InitStep::Done,
    ];
    for expected in order {
        s = init_transition(s, AckStatus::Found);
        assert_eq!(s, expected);
    }
    assert_eq!(init_transition(InitStep::Done, AckStatus::Found), InitStep::Done);
}

#[test]
fn any_failure_restarts_from_the_beginning() {
    assert_eq!(init_transition(InitStep::EnableOdo, AckStatus::Failed), InitStep::SetProtocol);
    assert_eq!(
        init_transition(InitStep::RequestVersion, AckStatus::Failed),
        InitStep::SetProtocol
    );
}

#[test]
fn each_step_sends_a_framed_command() {
    // Every command is a UBX frame: sync bytes, class, id, length, payload,
    // checksum.
    let check = |step: InitStep, class: u8, id: u8, len: usize| {
        let bytes = command_bytes(step).unwrap();
        assert_eq!(bytes.len(), len);
        assert_eq!(&bytes[0..2], &[0xb5, 0x62]);
        assert_eq!(bytes[2], class);
        assert_eq!(bytes[3], id);
        let payload_len = u16::from_le_bytes([bytes[4], bytes[5]]) as usize;
        assert_eq!(payload_len + 8, len);
        // Fletcher checksum over class..payload.
        let mut ck_a = 0u8;
        let mut ck_b = 0u8;
        for b in &bytes[2..len - 2] {
            ck_a = ck_a.wrapping_add(*b);
            ck_b = ck_b.wrapping_add(ck_a);
        }
        assert_eq!(bytes[len - 2], ck_a);
        assert_eq!(bytes[len - 1], ck_b);
    };
    check(InitStep::SetProtocol, 6, 0, 28);
    check(InitStep::SetRate, 6, 8, 14);
    check(InitStep::EnablePvt, 6, 1, 16);
    check(InitStep::EnableOdo, 6, 1, 16);
    check(InitStep::RequestVersion, 10, 4, 8);
    assert!(command_bytes(InitStep::Done).is_none());

    // The rate command carries the 500 ms measurement rate.
    let rate = command_bytes(InitStep::SetRate).unwrap();
    assert_eq!(u16::from_le_bytes([rate[6], rate[7]]), 500);

    // The enable commands name the two navigation messages.
    let pvt = command_bytes(InitStep::EnablePvt).unwrap();
    assert_eq!((pvt[6], pvt[7]), (0x01, 0x07));
    let odo = command_bytes(InitStep::EnableOdo).unwrap();
    assert_eq!((odo[6], odo[7]), (0x01, 0x09));
}

#[test]
fn expected_acks_match_the_commands() {
    assert_eq!(expected_ack(InitStep::SetProtocol), Some((6, 0)));
    assert_eq!(expected_ack(InitStep::SetRate), Some((6, 8)));
    assert_eq!(expected_ack(InitStep::EnablePvt), Some((6, 1)));
    assert_eq!(expected_ack(InitStep::EnableOdo), Some((6, 1)));
    assert_eq!(expected_ack(InitStep::RequestVersion), None);
    assert_eq!(expected_ack(InitStep::Done), None);
}

#[test]
fn handshake_acks_flow_through_the_decoder() {
    // An AckAck frame for the port configuration, as the receiver would
    // send it, decoded by the real parser and classified.
    let payload = [6u8, 0u8];
    let mut frame = vec![0xb5u8, 0x62, 0x05, 0x01, 2, 0, payload[0], payload[1]];
    let mut ck_a = 0u8;
    let mut ck_b = 0u8;
    for b in &frame[2..] {
        ck_a = ck_a.wrapping_add(*b);
        ck_b = ck_b.wrapping_add(ck_a);
    }
    frame.push(ck_a);
    frame.push(ck_b);

    let mut gps = navdisplay::gps::Gps::new();
    let mut status = None;
    for b in frame {
        for p in gps.decode_byte(b) {
            status = Some(check_ack(&p, 6, 0));
        }
    }
    assert_eq!(status, Some(AckStatus::Found));
}
