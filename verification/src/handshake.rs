//! Receiver configuration handshake: a fixed sequence of configuration
//! commands, each of which must be acknowledged before the next is sent.
//!
//! The decisions live here, verified: which command each step sends, which
//! acknowledgement it waits for, and how the sequence advances or restarts.
//! The caller owns the serial port; it writes the command bytes, feeds
//! received bytes to the decoder, and hands every decoded message back. On
//! any failure the whole sequence restarts from the first step after a
//! settling delay and a decoder reset, because a failed handshake may mean
//! the receiver missed earlier commands entirely.

use vstd::prelude::*;

use crate::gps::{Packet, GPS_MESSAGE_MS};

verus! {

/// Configuration message class of the UBX protocol.
pub const CFG_CLASS: u8 = 6;

/// Message id of the port-configuration message.
pub const CFG_PRT_UART_ID: u8 = 0;

/// Message id of the measurement-rate message.
pub const CFG_RATE_ID: u8 = 8;

/// Message id of the per-message-rate message.
pub const CFG_MSG_ID: u8 = 1;

/// Navigation message class of the UBX protocol.
pub const NAV_CLASS: u8 = 1;

/// Message id of the position/velocity/time solution.
pub const NAV_PVT_ID: u8 = 7;

/// Message id of the odometer solution.
pub const NAV_ODO_ID: u8 = 9;

/// Monitoring message class of the UBX protocol.
pub const MON_CLASS: u8 = 10;

/// Message id of the receiver version report.
pub const MON_VER_ID: u8 = 4;

/// The wire bytes of the port-configuration command (8N1, binary protocol
/// out) at a given baud rate: the framing is a function of the rate alone,
/// done by `ublox::CfgPrtUartBuilder::into_packet_bytes`.
pub uninterp spec fn cfg_prt_uart_bytes(baud_rate: u32) -> Seq<u8>;

/// The wire bytes of the measurement-rate command (UTC-aligned): a
/// function of the two rates alone, framed by
/// `ublox::CfgRateBuilder::into_packet_bytes`.
pub uninterp spec fn cfg_rate_bytes(measure_rate_ms: u16, nav_rate: u16) -> Seq<u8>;

/// The wire bytes of the command that sets a message's send rate on every
/// port: a function of the message's class, id and the six per-port rates,
/// framed by `ublox::CfgMsgAllPortsBuilder::into_packet_bytes`.
pub uninterp spec fn cfg_msg_rate_bytes(class: u8, msg_id: u8, rates: Seq<u8>) -> Seq<u8>;

/// The wire bytes of the poll request for a message: a function of its
/// class and id alone, framed by
/// `ublox::UbxPacketRequest::into_packet_bytes`.
pub uninterp spec fn poll_bytes(class: u8, msg_id: u8) -> Seq<u8>;

/// The send rate enabling a message once per navigation cycle on the
/// serial port (the second of the six ports).
pub open spec fn once_per_cycle_rates() -> Seq<u8> {
    seq![0u8, 1u8, 0u8, 0u8, 0u8, 0u8]
}

/// The steps of the handshake, in order: switch the port to the binary
/// protocol, set the fix rate, enable the two navigation messages, and
/// finally request the receiver's version report.
#[derive(Clone, Copy, PartialEq, Eq, Structural, Debug)]
pub enum InitStep {
    SetProtocol,
    SetRate,
    EnablePvt,
    EnableOdo,
    RequestVersion,
    Done,
}

/// What a decoded message means while an acknowledgement is awaited: the
/// matching acknowledgement advances the sequence; any other message — a
/// foreign acknowledgement, an unrelated report, or a malformed frame —
/// fails it.
#[derive(Clone, Copy, PartialEq, Eq, Structural, Debug)]
pub enum AckStatus {
    Found,
    Failed,
}

pub open spec fn spec_ack_status(p: Packet, class: u8, msg_id: u8) -> AckStatus {
    match p {
        Packet::Ack { class: c, msg_id: i } => if c == class && i == msg_id {
            AckStatus::Found
        } else {
            AckStatus::Failed
        },
        _ => AckStatus::Failed,
    }
}

pub fn check_ack(p: &Packet, class: u8, msg_id: u8) -> (r: AckStatus)
    ensures
        r == spec_ack_status(*p, class, msg_id),
{
    match p {
        Packet::Ack { class: c, msg_id: i } => {
            if *c == class && *i == msg_id {
                AckStatus::Found
            } else {
                AckStatus::Failed
            }
        },
        _ => AckStatus::Failed,
    }
}

/// The step after a successful one.
pub open spec fn spec_next_step(s: InitStep) -> InitStep {
    match s {
        InitStep::SetProtocol => InitStep::SetRate,
        InitStep::SetRate => InitStep::EnablePvt,
        InitStep::EnablePvt => InitStep::EnableOdo,
        InitStep::EnableOdo => InitStep::RequestVersion,
        InitStep::RequestVersion => InitStep::Done,
        InitStep::Done => InitStep::Done,
    }
}

/// How the sequence moves: a found acknowledgement advances one step, any
/// failure restarts the whole sequence from the first step.
pub open spec fn spec_transition(s: InitStep, a: AckStatus) -> InitStep {
    match a {
        AckStatus::Found => spec_next_step(s),
        AckStatus::Failed => InitStep::SetProtocol,
    }
}

pub fn init_transition(s: InitStep, a: AckStatus) -> (r: InitStep)
    ensures
        r == spec_transition(s, a),
{
    match a {
        AckStatus::Found => match s {
            InitStep::SetProtocol => InitStep::SetRate,
            InitStep::SetRate => InitStep::EnablePvt,
            InitStep::EnablePvt => InitStep::EnableOdo,
            InitStep::EnableOdo => InitStep::RequestVersion,
            InitStep::RequestVersion => InitStep::Done,
            InitStep::Done => InitStep::Done,
        },
        AckStatus::Failed => InitStep::SetProtocol,
    }
}

/// The acknowledgement a step waits for, as (class, id); the version
/// request and the terminal state wait for none.
pub open spec fn spec_expected_ack(s: InitStep) -> Option<(u8, u8)> {
    match s {
        InitStep::SetProtocol => Some((CFG_CLASS, CFG_PRT_UART_ID)),
        InitStep::SetRate => Some((CFG_CLASS, CFG_RATE_ID)),
        InitStep::EnablePvt => Some((CFG_CLASS, CFG_MSG_ID)),
        InitStep::EnableOdo => Some((CFG_CLASS, CFG_MSG_ID)),
        InitStep::RequestVersion => None,
        InitStep::Done => None,
    }
}

pub fn expected_ack(s: InitStep) -> (r: Option<(u8, u8)>)
    ensures
        r == spec_expected_ack(s),
{
    match s {
        InitStep::SetProtocol => Some((CFG_CLASS, CFG_PRT_UART_ID)),
        InitStep::SetRate => Some((CFG_CLASS, CFG_RATE_ID)),
        InitStep::EnablePvt => Some((CFG_CLASS, CFG_MSG_ID)),
        InitStep::EnableOdo => Some((CFG_CLASS, CFG_MSG_ID)),
        InitStep::RequestVersion => None,
        InitStep::Done => None,
    }
}

/// Relies on ublox::CfgPrtUartBuilder::into_packet_bytes: frames the
/// port-configuration command (8N1, binary protocol out) at the given
/// baud rate into its 28 wire bytes; the result depends on the baud rate
/// alone.
#[verifier::external_body]
fn build_cfg_prt_uart(baud_rate: u32) -> (r: Vec<u8>)
    ensures
        r@ == cfg_prt_uart_bytes(baud_rate),
        r@.len() == 28,
{
    ublox::CfgPrtUartBuilder {
        portid: ublox::UartPortId::Uart1,
        reserved0: 0,
        tx_ready: 0,
        mode: ublox::UartMode::new(
            ublox::DataBits::Eight,
            ublox::Parity::None,
            ublox::StopBits::One,
        ),
        baud_rate,
        in_proto_mask: ublox::InProtoMask::all(),
        out_proto_mask: ublox::OutProtoMask::UBLOX,
        flags: 0,
        reserved5: 0,
    }.into_packet_bytes().to_vec()
}

/// Relies on ublox::CfgRateBuilder::into_packet_bytes: frames the
/// measurement-rate command (UTC-aligned) into its 14 wire bytes; the
/// result depends on the two rates alone.
#[verifier::external_body]
fn build_cfg_rate(measure_rate_ms: u16, nav_rate: u16) -> (r: Vec<u8>)
    ensures
        r@ == cfg_rate_bytes(measure_rate_ms, nav_rate),
        r@.len() == 14,
{
    ublox::CfgRateBuilder {
        measure_rate_ms,
        nav_rate,
        time_ref: ublox::AlignmentToReferenceTime::Utc,
    }.into_packet_bytes().to_vec()
}

/// Relies on ublox::CfgMsgAllPortsBuilder::into_packet_bytes: frames the
/// command that enables the position/velocity/time solution (class 1,
/// id 7 in the ublox source) once per cycle on the serial port, 16 wire
/// bytes; the result depends on the class, id and rates alone.
#[verifier::external_body]
fn build_enable_pvt() -> (r: Vec<u8>)
    ensures
        r@ == cfg_msg_rate_bytes(NAV_CLASS, NAV_PVT_ID, once_per_cycle_rates()),
        r@.len() == 16,
{
    ublox::CfgMsgAllPortsBuilder::set_rate_for::<ublox::NavPvt>([0, 1, 0, 0, 0, 0])
        .into_packet_bytes()
        .to_vec()
}

/// Relies on ublox::CfgMsgAllPortsBuilder::into_packet_bytes: frames the
/// command that enables the odometer solution (class 1, id 9 in the ublox
/// source) once per cycle on the serial port, 16 wire bytes; the result
/// depends on the class, id and rates alone.
#[verifier::external_body]
fn build_enable_odo() -> (r: Vec<u8>)
    ensures
        r@ == cfg_msg_rate_bytes(NAV_CLASS, NAV_ODO_ID, once_per_cycle_rates()),
        r@.len() == 16,
{
    ublox::CfgMsgAllPortsBuilder::set_rate_for::<ublox::NavOdo>([0, 1, 0, 0, 0, 0])
        .into_packet_bytes()
        .to_vec()
}

/// Relies on ublox::UbxPacketRequest::into_packet_bytes: frames the poll
/// request for the receiver's version report (class 10, id 4 in the ublox
/// source), 8 wire bytes; the result depends on the class and id alone.
#[verifier::external_body]
fn build_request_version() -> (r: Vec<u8>)
    ensures
        r@ == poll_bytes(MON_CLASS, MON_VER_ID),
        r@.len() == 8,
{
    ublox::UbxPacketRequest::request_for::<ublox::MonVer>().into_packet_bytes().to_vec()
}

/// The command bytes a step sends, or `None` once the handshake is done:
/// the port to the binary protocol at 9600 baud, the measurement rate to
/// one fix per `GPS_MESSAGE_MS`, the two navigation messages each enabled
/// once per cycle, and the version poll.
pub fn command_bytes(s: InitStep) -> (r: Option<Vec<u8>>)
    ensures
        r is Some <==> s != InitStep::Done,
        s == InitStep::SetProtocol ==> (r matches Some(v) && v@ == cfg_prt_uart_bytes(9600)
            && v@.len() == 28),
        s == InitStep::SetRate ==> (r matches Some(v) && v@ == cfg_rate_bytes(GPS_MESSAGE_MS, 1)
            && v@.len() == 14),
        s == InitStep::EnablePvt ==> (r matches Some(v) && v@ == cfg_msg_rate_bytes(
            NAV_CLASS,
            NAV_PVT_ID,
            once_per_cycle_rates(),
        ) && v@.len() == 16),
        s == InitStep::EnableOdo ==> (r matches Some(v) && v@ == cfg_msg_rate_bytes(
            NAV_CLASS,
            NAV_ODO_ID,
            once_per_cycle_rates(),
        ) && v@.len() == 16),
        s == InitStep::RequestVersion ==> (r matches Some(v) && v@ == poll_bytes(
            MON_CLASS,
            MON_VER_ID,
        ) && v@.len() == 8),
    {
    match s {
        InitStep::SetProtocol => Some(build_cfg_prt_uart(9600)),
        InitStep::SetRate => Some(build_cfg_rate(GPS_MESSAGE_MS, 1)),
        InitStep::EnablePvt => Some(build_enable_pvt()),
        InitStep::EnableOdo => Some(build_enable_odo()),
        InitStep::RequestVersion => Some(build_request_version()),
        InitStep::Done => None,
    }
}

} // verus!
