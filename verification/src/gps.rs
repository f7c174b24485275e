//! GPS aggregator: consumes bytes from the receiver, and for each decoded
//! navigation message updates a snapshot of derived readings (smoothed
//! speeds, running maxima, position, fix time, odometer distance).
//!
//! Byte-level framing and checksum validation belong to the `ublox` crate;
//! everything done with a decoded message is verified here. Speeds are held
//! in milli-knots, positions in 1e-7 degree steps and courses in 1e-5 degree
//! steps, exactly the raw fixed-point units of the wire protocol.

use vstd::prelude::*;

use crate::samples::{seq_sum, AverageBuffer};

verus! {

/// How often the receiver is configured to send position data.
pub const GPS_MESSAGE_MS: u16 = 500;

/// Samples for the ~1 s "current speed" window: one second of messages at
/// the 500 ms message rate.
pub const SPEED_SAMPLES: usize = 2;

/// Samples for the ~10 s "average speed" window: ten seconds of messages at
/// the 500 ms message rate.
pub const SPEED_AVG_SAMPLES: usize = 20;

/// UTC time of the latest fix.
#[derive(Clone, Copy, Debug)]
pub struct GpsTime {
    pub year: u16,
    pub month: u8,
    pub day: u8,
    pub hour: u8,
    pub min: u8,
    pub sec: u8,
}

impl PartialEq for GpsTime {
    fn eq(&self, other: &GpsTime) -> (r: bool) {
        self.year == other.year && self.month == other.month && self.day == other.day
            && self.hour == other.hour && self.min == other.min && self.sec == other.sec
    }
}

impl vstd::std_specs::cmp::PartialEqSpecImpl for GpsTime {
    open spec fn obeys_eq_spec() -> bool {
        true
    }

    open spec fn eq_spec(&self, other: &GpsTime) -> bool {
        *self == *other
    }
}

/// The navigation snapshot handed to the display loop.
///
/// `speed`, `max_speed`, `avg_speed` and `max_avg_speed` are in milli-knots;
/// `course` in 1e-5 degrees; `latitude`/`longitude` in 1e-7 degrees;
/// `distance_m` in meters.
#[derive(Clone, Copy, Debug)]
pub struct GpsData {
    pub sat_in_use: u8,
    pub course: Option<i32>,
    pub speed: u64,
    pub max_speed: u64,
    pub avg_speed: u64,
    pub max_avg_speed: u64,
    pub distance_m: u32,
    pub hdop: Option<u32>,
    pub latitude: Option<i32>,
    pub longitude: Option<i32>,
    pub time: Option<GpsTime>,
}

/// One decoded position/velocity/time solution, in raw wire units.
#[derive(Clone, Copy, PartialEq, Eq, Structural, Debug)]
pub struct FixMessage {
    pub sat_in_use: u8,
    pub fix_ok: bool,
    pub lat_raw: i32,
    pub lon_raw: i32,
    pub heading_raw: i32,
    pub speed_raw: u32,
    pub year: u16,
    pub month: u8,
    pub day: u8,
    pub hour: u8,
    pub min: u8,
    pub sec: u8,
}

/// A decoded message, reduced to what the aggregator dispatches on.
#[derive(Clone, Copy, PartialEq, Eq, Structural, Debug)]
pub enum Packet {
    /// Position/velocity fix solution.
    Fix(FixMessage),
    /// Odometer distance in meters.
    Odometer(u32),
    /// Acknowledgement of a configuration message.
    Ack { class: u8, msg_id: u8 },
    /// Receiver version report; informational, no state change.
    Version,
    /// A well-formed message of no interest.
    Other,
    /// A malformed message; link noise, dropped.
    Malformed,
}

/// Ground speed in milli-knots from the wire's mm/s value
/// (1 m/s = 1.943844 knots).
pub open spec fn spec_knots_from_raw(raw: nat) -> nat {
    raw * 1943844 / 1000000
}

pub fn knots_from_raw(raw: u32) -> (r: u64)
    ensures
        r == spec_knots_from_raw(raw as nat),
{
    proof {
        assert((raw as nat) * 1943844 < u64::MAX) by (nonlinear_arith)
            requires
                raw <= u32::MAX,
        ;
        assert((raw as nat) * 1943844 / 1000000 <= (raw as nat) * 1943844) by (nonlinear_arith);
    }
    raw as u64 * 1943844 / 1000000
}

pub open spec fn max_u64(a: u64, b: u64) -> u64 {
    if b > a {
        b
    } else {
        a
    }
}

pub fn update_max(max: &mut u64, v: u64)
    ensures
        *final(max) == max_u64(*old(max), v),
{
    if v > *max {
        *max = v;
    }
}

/// Ghost model of the aggregator: the snapshot, both smoothing windows with
/// their cursors, and the take-once dirty marker.
#[verifier::ext_equal]
pub struct NavModel {
    pub data: GpsData,
    pub short_window: Seq<u64>,
    pub short_cursor: nat,
    pub long_window: Seq<u64>,
    pub long_cursor: nat,
    pub updated: bool,
}

/// A window after one sample is written at the cursor.
pub open spec fn window_add(w: Seq<u64>, cur: nat, v: u64) -> Seq<u64> {
    w.update(cur as int, v)
}

/// The mean over the whole window, zeros included.
pub open spec fn window_avg(w: Seq<u64>) -> nat {
    seq_sum(w) / w.len()
}

/// The aggregator state after one fix solution.
///
/// Satellites-in-use is taken unconditionally. A valid fix records position,
/// course and time; an invalid fix clears them and resets both smoothing
/// windows, so stale samples never leak into a new acquisition. Either way
/// the speed sample is pushed into both windows, the smoothed values are
/// recomputed, the running maxima are raised, and the snapshot is marked
/// dirty.
pub open spec fn apply_fix(m: NavModel, f: FixMessage) -> NavModel {
    let cleared = if f.fix_ok {
        NavModel {
            data: GpsData {
                sat_in_use: f.sat_in_use,
                hdop: None,
                latitude: Some(f.lat_raw),
                longitude: Some(f.lon_raw),
                course: Some(f.heading_raw),
                time: Some(
                    GpsTime {
                        year: f.year,
                        month: f.month,
                        day: f.day,
                        hour: f.hour,
                        min: f.min,
                        sec: f.sec,
                    },
                ),
                ..m.data
            },
            ..m
        }
    } else {
        NavModel {
            data: GpsData {
                sat_in_use: f.sat_in_use,
                hdop: None,
                latitude: None,
                longitude: None,
                course: None,
                time: None,
                ..m.data
            },
            short_window: Seq::new(m.short_window.len(), |i: int| 0u64),
            short_cursor: 0,
            long_window: Seq::new(m.long_window.len(), |i: int| 0u64),
            long_cursor: 0,
            ..m
        }
    };
    let mkn = spec_knots_from_raw(f.speed_raw as nat) as u64;
    let short = window_add(cleared.short_window, cleared.short_cursor, mkn);
    let long = window_add(cleared.long_window, cleared.long_cursor, mkn);
    let speed = window_avg(short) as u64;
    let avg_speed = window_avg(long) as u64;
    NavModel {
        data: GpsData {
            speed,
            max_speed: max_u64(cleared.data.max_speed, speed),
            avg_speed,
            max_avg_speed: max_u64(cleared.data.max_avg_speed, avg_speed),
            ..cleared.data
        },
        short_window: short,
        short_cursor: (cleared.short_cursor + 1) % m.short_window.len(),
        long_window: long,
        long_cursor: (cleared.long_cursor + 1) % m.long_window.len(),
        updated: true,
    }
}

/// The aggregator state after one decoded message.
pub open spec fn step(m: NavModel, p: Packet) -> NavModel {
    match p {
        Packet::Fix(f) => apply_fix(m, f),
        Packet::Odometer(d) => NavModel {
            data: GpsData { distance_m: d, ..m.data },
            updated: true,
            ..m
        },
        _ => m,
    }
}

/// The aggregator state after a sequence of decoded messages.
pub open spec fn fold_steps(m: NavModel, ps: Seq<Packet>) -> NavModel
    decreases ps.len(),
{
    if ps.len() == 0 {
        m
    } else {
        step(fold_steps(m, ps.drop_last()), ps.last())
    }
}

/// What `take` returns: the snapshot iff the dirty marker is set.
pub open spec fn take_result(m: NavModel) -> Option<GpsData> {
    if m.updated {
        Some(m.data)
    } else {
        None
    }
}

/// The aggregator state after `take`: only the dirty marker is cleared.
pub open spec fn after_take(m: NavModel) -> NavModel {
    NavModel { updated: false, ..m }
}

/// `take` called twice in a row without an intervening message returns
/// `Some` then `None`: the first call clears the dirty marker, and nothing
/// else sets it.
pub proof fn lemma_take_twice(m: NavModel)
    requires
        m.updated,
    ensures
        take_result(m) is Some,
        take_result(after_take(m)) is None,
{
}

/// The running maxima dominate the current smoothed readings.
pub open spec fn max_dominates(m: NavModel) -> bool {
    &&& m.data.max_speed >= m.data.speed
    &&& m.data.max_avg_speed >= m.data.avg_speed
}

/// One message keeps the maxima above the smoothed readings.
pub proof fn lemma_step_keeps_max_dominates(m: NavModel, p: Packet)
    requires
        max_dominates(m),
    ensures
        max_dominates(step(m, p)),
{
}

/// Any run of messages keeps the maxima above the smoothed readings.
pub proof fn lemma_fold_keeps_max_dominates(m: NavModel, ps: Seq<Packet>)
    requires
        max_dominates(m),
    ensures
        max_dominates(fold_steps(m, ps)),
    decreases ps.len(),
{
    if ps.len() > 0 {
        lemma_fold_keeps_max_dominates(m, ps.drop_last());
        lemma_step_keeps_max_dominates(fold_steps(m, ps.drop_last()), ps.last());
    }
}

/// The running maxima never decrease.
pub proof fn lemma_fold_max_monotone(m: NavModel, ps: Seq<Packet>)
    ensures
        fold_steps(m, ps).data.max_speed >= m.data.max_speed,
        fold_steps(m, ps).data.max_avg_speed >= m.data.max_avg_speed,
    decreases ps.len(),
{
    if ps.len() > 0 {
        lemma_fold_max_monotone(m, ps.drop_last());
    }
}

/// Folding a run of messages splits at any point.
pub proof fn lemma_fold_split(m: NavModel, ps: Seq<Packet>, i: int)
    requires
        0 <= i <= ps.len(),
    ensures
        fold_steps(m, ps) == fold_steps(fold_steps(m, ps.take(i)), ps.skip(i)),
    decreases ps.len() - i,
{
    if i == ps.len() {
        assert(ps.take(i) =~= ps);
        assert(ps.skip(i) =~= Seq::<Packet>::empty());
    } else {
        lemma_fold_split(m, ps, i + 1);
        assert(ps.take(i + 1).drop_last() =~= ps.take(i));
        assert(ps.take(i + 1).last() == ps[i]);
        assert(ps.skip(i).drop_first() =~= ps.skip(i + 1));
        lemma_fold_step_first(fold_steps(m, ps.take(i)), ps.skip(i));
    }
}

/// Folding a non-empty run is a step followed by folding the rest.
pub proof fn lemma_fold_step_first(m: NavModel, ps: Seq<Packet>)
    requires
        ps.len() > 0,
    ensures
        fold_steps(m, ps) == fold_steps(step(m, ps.first()), ps.drop_first()),
    decreases ps.len(),
{
    if ps.len() == 1 {
        assert(ps.drop_last() =~= Seq::<Packet>::empty());
        assert(ps.drop_first() =~= Seq::<Packet>::empty());
    } else {
        lemma_fold_step_first(m, ps.drop_last());
        assert(ps.drop_last().first() == ps.first());
        assert(ps.drop_last().drop_first() =~= ps.drop_first().drop_last());
        assert(ps.drop_first().last() == ps.last());
    }
}

/// After any run of messages, the running maxima are at least every
/// previously observed smoothed reading: `max_speed` dominates the
/// instantaneous (short-window) speed after each prefix, `max_avg_speed`
/// the long-window speed.
pub proof fn lemma_max_dominates_history(m: NavModel, ps: Seq<Packet>, i: int)
    requires
        max_dominates(m),
        0 <= i <= ps.len(),
    ensures
        fold_steps(m, ps).data.max_speed >= fold_steps(m, ps.take(i)).data.speed,
        fold_steps(m, ps).data.max_avg_speed >= fold_steps(m, ps.take(i)).data.avg_speed,
{
    let mi = fold_steps(m, ps.take(i));
    lemma_fold_keeps_max_dominates(m, ps.take(i));
    lemma_fold_split(m, ps, i);
    lemma_fold_max_monotone(mi, ps.skip(i));
}

/// A fix-invalid message leaves course, position, dilution and time absent,
/// and restarts both smoothing windows from the one sample it carried.
pub proof fn lemma_invalid_fix_clears(m: NavModel, f: FixMessage)
    requires
        !f.fix_ok,
    ensures
        apply_fix(m, f).data.course is None,
        apply_fix(m, f).data.latitude is None,
        apply_fix(m, f).data.longitude is None,
        apply_fix(m, f).data.hdop is None,
        apply_fix(m, f).data.time is None,
        apply_fix(m, f).short_window == Seq::new(m.short_window.len(), |i: int| 0u64).update(
            0,
            spec_knots_from_raw(f.speed_raw as nat) as u64,
        ),
        apply_fix(m, f).long_window == Seq::new(m.long_window.len(), |i: int| 0u64).update(
            0,
            spec_knots_from_raw(f.speed_raw as nat) as u64,
        ),
{
}

/// The speed samples carried by a run of fix messages.
pub open spec fn fix_speeds(fs: Seq<FixMessage>) -> Seq<u64> {
    fs.map_values(|f: FixMessage| spec_knots_from_raw(f.speed_raw as nat) as u64)
}

/// A run of fix messages, as packets.
pub open spec fn fix_packets(fs: Seq<FixMessage>) -> Seq<Packet> {
    fs.map_values(|f: FixMessage| Packet::Fix(f))
}

/// A window of `n` slots whose first slots hold `vs` and whose rest are
/// still zero.
pub open spec fn window_filled(n: nat, vs: Seq<u64>) -> Seq<u64> {
    Seq::new(
        n,
        |i: int|
            if i < vs.len() {
                vs[i]
            } else {
                0u64
            },
    )
}

/// The zero slots contribute nothing to the sum of a partly filled window.
pub proof fn lemma_filled_sum(n: nat, vs: Seq<u64>)
    requires
        vs.len() <= n,
    ensures
        seq_sum(window_filled(n, vs)) == seq_sum(vs),
    decreases vs.len(),
{
    if vs.len() == 0 {
        crate::samples::lemma_seq_sum_zeros(window_filled(n, vs));
    } else {
        lemma_filled_sum(n, vs.drop_last());
        let k = vs.len() - 1;
        assert(window_filled(n, vs) =~= window_filled(n, vs.drop_last()).update(k, vs.last()));
        crate::samples::lemma_seq_sum_update(window_filled(n, vs.drop_last()), k, vs.last());
    }
}

/// After a fix-invalid message followed by `k` fix-valid messages
/// (`k + 1` at most the window size), each window holds exactly the
/// `k + 1` speed samples seen since the loss, and nothing older.
pub proof fn lemma_post_loss_state(m: NavModel, f0: FixMessage, fs: Seq<FixMessage>)
    requires
        !f0.fix_ok,
        forall|i: int| 0 <= i < fs.len() ==> (#[trigger] fs[i]).fix_ok,
        m.short_window.len() >= 1,
        m.long_window.len() >= 1,
        fs.len() + 1 <= m.short_window.len(),
        fs.len() + 1 <= m.long_window.len(),
    ensures
        ({
            let mm = fold_steps(m, seq![Packet::Fix(f0)] + fix_packets(fs));
            let vs = seq![spec_knots_from_raw(f0.speed_raw as nat) as u64] + fix_speeds(fs);
            &&& mm.short_window == window_filled(m.short_window.len(), vs)
            &&& mm.short_cursor == (fs.len() + 1) % m.short_window.len()
            &&& mm.long_window == window_filled(m.long_window.len(), vs)
            &&& mm.long_cursor == (fs.len() + 1) % m.long_window.len()
        }),
    decreases fs.len(),
{
    let v0 = spec_knots_from_raw(f0.speed_raw as nat) as u64;
    let ns = m.short_window.len();
    let nl = m.long_window.len();
    if fs.len() == 0 {
        let run = seq![Packet::Fix(f0)] + fix_packets(fs);
        assert(run.len() == 1);
        assert(run.drop_last() =~= Seq::<Packet>::empty());
        assert(run.last() == Packet::Fix(f0));
        let mm = fold_steps(m, run);
        assert(mm == step(fold_steps(m, run.drop_last()), run.last()));
        assert(fold_steps(m, run.drop_last()) == m);
        assert(mm == apply_fix(m, f0));
        let vs = seq![v0] + fix_speeds(fs);
        assert(mm.short_window =~= window_filled(ns, vs));
        assert(mm.long_window =~= window_filled(nl, vs));
        assert(mm.short_cursor == (fs.len() + 1) % ns);
        assert(mm.long_cursor == (fs.len() + 1) % nl);
    } else {
        assert(forall|i: int|
            0 <= i < fs.drop_last().len() ==> (#[trigger] fs.drop_last()[i]).fix_ok) by {
            assert(forall|i: int|
                0 <= i < fs.drop_last().len() ==> fs.drop_last()[i] == fs[i]);
        }
        lemma_post_loss_state(m, f0, fs.drop_last());
        let prev = fold_steps(m, seq![Packet::Fix(f0)] + fix_packets(fs.drop_last()));
        assert((seq![Packet::Fix(f0)] + fix_packets(fs)).drop_last() =~= seq![Packet::Fix(f0)]
            + fix_packets(fs.drop_last()));
        assert((seq![Packet::Fix(f0)] + fix_packets(fs)).last() == Packet::Fix(fs.last()));
        let k = fs.len() as int;
        let vs_prev = seq![v0] + fix_speeds(fs.drop_last());
        let vs = seq![v0] + fix_speeds(fs);
        assert(vs_prev.len() == k);
        assert(prev.short_cursor == ((k - 1) + 1) % (ns as int));
        assert(k % (ns as int) == k) by (nonlinear_arith)
            requires
                0 <= k < ns,
        ;
        assert(k % (nl as int) == k) by (nonlinear_arith)
            requires
                0 <= k < nl,
        ;
        let vk = spec_knots_from_raw(fs.last().speed_raw as nat) as u64;
        assert(fs.last().fix_ok);
        let mm = fold_steps(m, seq![Packet::Fix(f0)] + fix_packets(fs));
        assert(mm == apply_fix(prev, fs.last()));
        assert(prev.short_window.len() == ns);
        assert(mm.short_window == prev.short_window.update(k, vk));
        assert(mm.short_window =~= window_filled(ns, vs));
        assert(mm.long_window =~= window_filled(nl, vs));
        assert(mm.short_cursor == (fs.len() + 1) % ns);
        assert(mm.long_cursor == (fs.len() + 1) % nl);
    }
}

/// After a fix-invalid message followed by `k` fix-valid messages, the
/// smoothed speeds are the mean of exactly those `k + 1` post-loss samples
/// over the full window: samples recorded before the loss of fix do not
/// appear in the average.
pub proof fn lemma_post_loss_average(m: NavModel, f0: FixMessage, fs: Seq<FixMessage>)
    requires
        !f0.fix_ok,
        forall|i: int| 0 <= i < fs.len() ==> (#[trigger] fs[i]).fix_ok,
        m.short_window.len() >= 1,
        m.long_window.len() >= 1,
        fs.len() + 1 <= m.short_window.len(),
        fs.len() + 1 <= m.long_window.len(),
    ensures
        ({
            let mm = fold_steps(m, seq![Packet::Fix(f0)] + fix_packets(fs));
            let vs = seq![spec_knots_from_raw(f0.speed_raw as nat) as u64] + fix_speeds(fs);
            &&& mm.data.speed == seq_sum(vs) / m.short_window.len()
            &&& mm.data.avg_speed == seq_sum(vs) / m.long_window.len()
        }),
{
    let v0 = spec_knots_from_raw(f0.speed_raw as nat) as u64;
    let vs = seq![v0] + fix_speeds(fs);
    let ns = m.short_window.len();
    let nl = m.long_window.len();
    let run = seq![Packet::Fix(f0)] + fix_packets(fs);
    let mm = fold_steps(m, run);
    lemma_post_loss_state(m, f0, fs);
    lemma_filled_sum(ns, vs);
    lemma_filled_sum(nl, vs);
    let prev = fold_steps(m, run.drop_last());
    if fs.len() == 0 {
        assert(run.last() == Packet::Fix(f0));
        assert(mm == apply_fix(prev, f0));
    } else {
        assert(run.last() == Packet::Fix(fs.last()));
        assert(mm == apply_fix(prev, fs.last()));
    }
    crate::samples::lemma_seq_sum_upper_bound(mm.short_window);
    crate::samples::lemma_seq_sum_upper_bound(mm.long_window);
    assert(mm.short_window.len() == ns);
    assert(mm.long_window.len() == nl);
    assert(window_avg(mm.short_window) <= u64::MAX) by (nonlinear_arith)
        requires
            ns >= 1,
            window_avg(mm.short_window) == seq_sum(mm.short_window) / ns,
            seq_sum(mm.short_window) <= ns * u64::MAX,
    ;
    assert(window_avg(mm.long_window) <= u64::MAX) by (nonlinear_arith)
        requires
            nl >= 1,
            window_avg(mm.long_window) == seq_sum(mm.long_window) / nl,
            seq_sum(mm.long_window) <= nl * u64::MAX,
    ;
    assert(mm.data.speed == window_avg(mm.short_window));
    assert(mm.data.avg_speed == window_avg(mm.long_window));
}

/// The initial snapshot: all readings zero or absent.
pub open spec fn initial_data() -> GpsData {
    GpsData {
        sat_in_use: 0,
        course: None,
        hdop: None,
        latitude: None,
        longitude: None,
        speed: 0,
        distance_m: 0,
        time: None,
        max_speed: 0,
        avg_speed: 0,
        max_avg_speed: 0,
    }
}

/// Owns the ublox protocol decoder. `ublox::Parser` is generic over a
/// buffer trait that cannot be declared here, so the decoder is held behind
/// this opaque struct; what it has buffered is reachable in contracts only
/// through the name `decoder_buffered`.
#[verifier::external_body]
pub struct UbxDecoder {
    parser: ublox::Parser<Vec<u8>>,
}

/// The bytes of a partially received frame that the decoder has buffered.
/// The content is opaque; the trusted items state of it only what the
/// `ublox` source shows (a fresh decoder has buffered nothing).
pub uninterp spec fn decoder_buffered(d: UbxDecoder) -> Seq<u8>;

#[verifier::external_type_specification]
#[verifier::external_body]
pub struct ExUbxPacketRef<'a>(ublox::PacketRef<'a>);

#[verifier::external_type_specification]
#[verifier::external_body]
pub struct ExUbxParserError(ublox::ParserError);

#[verifier::external_type_specification]
#[verifier::external_body]
pub struct ExUbxNavPvtRef<'a>(ublox::NavPvtRef<'a>);

/// Relies on ublox::Parser::default: a fresh decoder whose buffer is an
/// empty `Vec`, holding no bytes of any partially received frame.
#[verifier::external_body]
fn parser_new() -> (r: UbxDecoder)
    ensures
        decoder_buffered(r) == Seq::<u8>::empty(),
{
    UbxDecoder { parser: ublox::Parser::default() }
}

/// Relies on the accessors of ublox::NavPvtRef (num_satellites, flags,
/// lat/lon/heading raw degrees, raw ground speed, UTC date and time): copies
/// the decoded solution into plain values.
#[verifier::external_body]
fn fix_of_pvt(pvt: &ublox::NavPvtRef<'_>) -> FixMessage {
    FixMessage {
        sat_in_use: pvt.num_satellites(),
        fix_ok: pvt.flags().contains(ublox::NavPvtFlags::GPS_FIX_OK),
        lat_raw: pvt.lat_degrees_raw(),
        lon_raw: pvt.lon_degrees_raw(),
        heading_raw: pvt.heading_degrees_raw(),
        speed_raw: pvt.ground_speed_raw(),
        year: pvt.year(),
        month: pvt.month(),
        day: pvt.day(),
        hour: pvt.hour(),
        min: pvt.min(),
        sec: pvt.sec(),
    }
}

/// Relies on ublox::PacketRef to tell the message kinds apart, and on
/// ublox::NavOdoRef::distance and ublox::AckAckRef::class / msg_id.
#[verifier::external_body]
fn classify_packet(item: Result<ublox::PacketRef<'_>, ublox::ParserError>) -> Packet {
    match item {
        Ok(ublox::PacketRef::NavPvt(pvt)) => Packet::Fix(fix_of_pvt(&pvt)),
        Ok(ublox::PacketRef::NavOdo(odo)) => Packet::Odometer(odo.distance()),
        Ok(ublox::PacketRef::AckAck(ack)) => Packet::Ack {
            class: ack.class(),
            msg_id: ack.msg_id(),
        },
        Ok(ublox::PacketRef::MonVer(_)) => Packet::Version,
        Ok(_) => Packet::Other,
        Err(_) => Packet::Malformed,
    }
}

/// Relies on ublox::Parser::consume: feeds one byte to the decoder and
/// drains every message it completes, in order.
#[verifier::external_body]
fn parser_consume(decoder: &mut UbxDecoder, b: u8) -> Vec<Packet> {
    let data = [b];
    let mut it = decoder.parser.consume(&data);
    let mut out = Vec::new();
    while let Some(item) = it.next() {
        out.push(classify_packet(item));
    }
    out
}

/// The aggregator: owns the protocol decoder and the smoothing windows.
pub struct Gps {
    parser: UbxDecoder,
    output: GpsData,
    updated: bool,
    speed_samples: AverageBuffer<SPEED_SAMPLES>,
    avg_speed_samples: AverageBuffer<SPEED_AVG_SAMPLES>,
}

impl Gps {
    pub closed spec fn model(&self) -> NavModel {
        NavModel {
            data: self.output,
            short_window: self.speed_samples.samples(),
            short_cursor: self.speed_samples.cursor(),
            long_window: self.avg_speed_samples.samples(),
            long_cursor: self.avg_speed_samples.cursor(),
            updated: self.updated,
        }
    }

    pub closed spec fn wf(&self) -> bool {
        self.speed_samples.wf() && self.avg_speed_samples.wf()
    }

    /// The protocol decoder the aggregator currently holds.
    pub closed spec fn decoder(&self) -> UbxDecoder {
        self.parser
    }

    pub fn new() -> (r: Gps)
        ensures
            r.wf(),
            r.model().data == initial_data(),
            r.model().updated,
            r.model().short_window == Seq::new(SPEED_SAMPLES as nat, |i: int| 0u64),
            r.model().long_window == Seq::new(SPEED_AVG_SAMPLES as nat, |i: int| 0u64),
            r.model().short_cursor == 0,
            r.model().long_cursor == 0,
            decoder_buffered(r.decoder()) == Seq::<u8>::empty(),
    {
        Gps {
            parser: parser_new(),
            output: GpsData {
                sat_in_use: 0,
                course: None,
                hdop: None,
                latitude: None,
                longitude: None,
                speed: 0,
                distance_m: 0,
                time: None,
                max_speed: 0,
                avg_speed: 0,
                max_avg_speed: 0,
            },
            updated: true,
            speed_samples: AverageBuffer::new(),
            avg_speed_samples: AverageBuffer::new(),
        }
    }

    /// Resets the protocol decoder after a transport-level read error:
    /// any partially received frame is discarded (the installed decoder
    /// has buffered nothing), and the accumulated navigation state is
    /// untouched.
    pub fn parse_clear(&mut self)
        requires
            old(self).wf(),
        ensures
            final(self).wf(),
            final(self).model() == old(self).model(),
            decoder_buffered(final(self).decoder()) == Seq::<u8>::empty(),
    {
        self.parser = parser_new();
    }

    /// Applies one decoded message to the snapshot.
    pub fn handle_packet(&mut self, p: &Packet)
        requires
            old(self).wf(),
        ensures
            final(self).wf(),
            final(self).model() == step(old(self).model(), *p),
            final(self).decoder() == old(self).decoder(),
    {
        match p {
            Packet::Fix(f) => {
                self.output.sat_in_use = f.sat_in_use;
                if f.fix_ok {
                    self.output.hdop = None;
                    self.output.latitude = Some(f.lat_raw);
                    self.output.longitude = Some(f.lon_raw);
                    self.output.course = Some(f.heading_raw);
                    self.output.time = Some(
                        GpsTime {
                            year: f.year,
                            month: f.month,
                            day: f.day,
                            hour: f.hour,
                            min: f.min,
                            sec: f.sec,
                        },
                    );
                } else {
                    self.output.hdop = None;
                    self.output.latitude = None;
                    self.output.longitude = None;
                    self.output.course = None;
                    self.output.time = None;
                    self.speed_samples.reset();
                    self.avg_speed_samples.reset();
                }
                let raw_speed = knots_from_raw(f.speed_raw);

                self.speed_samples.add(raw_speed);
                self.output.speed = self.speed_samples.avg_value();
                update_max(&mut self.output.max_speed, self.output.speed);

                self.avg_speed_samples.add(raw_speed);
                self.output.avg_speed = self.avg_speed_samples.avg_value();
                update_max(&mut self.output.max_avg_speed, self.output.avg_speed);

                self.updated = true;
                proof {
                    assert(self.model() =~= step(old(self).model(), *p));
                }
            },
            Packet::Odometer(d) => {
                self.output.distance_m = *d;
                self.updated = true;
                proof {
                    assert(self.model() =~= step(old(self).model(), *p));
                }
            },
            _ => {
                proof {
                    assert(self.model() =~= step(old(self).model(), *p));
                }
            },
        }
    }

    /// Feeds one received byte to the decoder alone, handing back whatever
    /// messages it completed; the navigation state is untouched. Used by
    /// the configuration handshake, which watches for acknowledgements.
    pub fn decode_byte(&mut self, received: u8) -> (ps: Vec<Packet>)
        requires
            old(self).wf(),
        ensures
            final(self).wf(),
            final(self).model() == old(self).model(),
    {
        parser_consume(&mut self.parser, received)
    }

    /// Feeds one received byte to the decoder and applies every message it
    /// completes; malformed messages are dropped, link noise is expected.
    pub fn parse_u8(&mut self, received: u8)
        requires
            old(self).wf(),
        ensures
            final(self).wf(),
            exists|ps: Seq<Packet>| final(self).model() == fold_steps(old(self).model(), ps),
    {
        let packets = self.decode_byte(received);
        let ghost m0 = self.model();
        let mut i: usize = 0;
        while i < packets.len()
            invariant
                self.wf(),
                i <= packets@.len(),
                self.model() == fold_steps(m0, packets@.take(i as int)),
            decreases packets@.len() - i,
        {
            let p = packets[i];
            proof {
                assert(packets@.take(i + 1).drop_last() =~= packets@.take(i as int));
                assert(packets@.take(i + 1).last() == packets@[i as int]);
            }
            self.handle_packet(&p);
            i = i + 1;
        }
        proof {
            assert(packets@.take(packets@.len() as int) =~= packets@);
        }
    }

    /// Hands out the snapshot exactly once per update: `Some` with a copy of
    /// the current state iff the dirty marker was set, clearing the marker;
    /// `None` (and no change at all) otherwise.
    pub fn take(&mut self) -> (r: Option<GpsData>)
        requires
            old(self).wf(),
        ensures
            final(self).wf(),
            !final(self).model().updated,
            final(self).model() == after_take(old(self).model()),
            r == take_result(old(self).model()),
            final(self).decoder() == old(self).decoder(),
    {
        let updated = self.updated;
        self.updated = false;
        proof {
            assert(self.model() =~= NavModel { updated: false, ..old(self).model() });
        }
        if updated {
            Some(self.output)
        } else {
            None
        }
    }
}

} // verus!
