//! The screen family: one page at a time, each page owning the display
//! fields and change trackers for its own readings, plus the shared status
//! line (satellite count, battery gauge, unit label).

use vstd::prelude::*;
use vstd::std_specs::cmp::PartialEqSpec;

use crate::gps::{GpsData, GpsTime};
use crate::layout::{
    diff_dirty, field_ops, DisplayField, DrawOp, FontId, Layout, Point, CHAR_HEIGHT, CHAR_WIDTH,
};
use crate::u8writer::{dec_rep, digits_of, U8Writer};

verus! {

/// One reading handed to the screens: a navigation snapshot or a battery
/// voltage in millivolts.
#[derive(Clone, Copy, Debug)]
pub enum Update {
    Gps(GpsData),
    Vbat(u16),
}

/// A value with a change marker: `set` raises the marker only when the new
/// value differs, and `updated` hands the value out at most once per change,
/// so an unchanged value causes no redraw.
pub struct Updateable<T> {
    value: T,
    updated: bool,
}

impl<T: PartialEq + PartialEqSpec + Copy> Updateable<T> {
    pub closed spec fn spec_value(&self) -> T {
        self.value
    }

    pub closed spec fn is_updated(&self) -> bool {
        self.updated
    }

    /// A fresh tracker reports its initial value as changed.
    pub fn new(value: T) -> (r: Updateable<T>)
        ensures
            r.spec_value() == value,
            r.is_updated(),
    {
        Updateable { value, updated: true }
    }

    pub fn set(&mut self, value: T)
        requires
            T::obeys_eq_spec(),
        ensures
            old(self).spec_value().eq_spec(&value) ==> *final(self) == *old(self),
            !old(self).spec_value().eq_spec(&value) ==> final(self).spec_value() == value
                && final(self).is_updated(),
    {
        if self.value != value {
            self.value = value;
            self.updated = true;
        }
    }

    /// The value, if it changed since the last call; clears the marker.
    pub fn updated(&mut self) -> (r: Option<T>)
        ensures
            final(self).spec_value() == old(self).spec_value(),
            !final(self).is_updated(),
            r == (if old(self).is_updated() {
                Some(old(self).spec_value())
            } else {
                None::<T>
            }),
    {
        if self.updated {
            self.updated = false;
            Some(self.value)
        } else {
            None
        }
    }
}

pub const BATTERY_WIDTH: i32 = 30;

pub const BATTERY_HEIGHT: i32 = 16;

/// Pack voltage taken as empty.
pub const BATTERY_MINV: u32 = 3400;

/// Pack voltage taken as full.
pub const BATTERY_MAXV: u32 = 4200;

/// Battery charge as a percentage: linear between the configured empty and
/// full voltages, clamped to 0..=100.
pub open spec fn spec_battery_percent(batmv: nat) -> nat {
    if batmv < BATTERY_MINV {
        0
    } else if batmv > BATTERY_MAXV {
        100
    } else {
        (((batmv - BATTERY_MINV) * 100) as nat) / ((BATTERY_MAXV - BATTERY_MINV) as nat)
    }
}

/// Below the configured minimum the gauge reads empty, at or above the
/// configured maximum it reads full, and exactly halfway it reads 50.
pub proof fn lemma_battery_percent_bounds(batmv: nat)
    ensures
        batmv < BATTERY_MINV ==> spec_battery_percent(batmv) == 0,
        batmv >= BATTERY_MAXV ==> spec_battery_percent(batmv) == 100,
        spec_battery_percent(((BATTERY_MINV + BATTERY_MAXV) / 2) as nat) == 50,
        spec_battery_percent(batmv) <= 100,
{
    assert(spec_battery_percent(4200) == (80000nat / 800nat));
    assert(spec_battery_percent(3800) == (40000nat / 800nat));
    if BATTERY_MINV <= batmv <= BATTERY_MAXV {
        assert((batmv - BATTERY_MINV) * 100 <= 80000) by (nonlinear_arith)
            requires
                BATTERY_MINV <= batmv <= BATTERY_MAXV,
        ;
        assert((((batmv - BATTERY_MINV) * 100) as nat) / 800 <= 100);
    }
}

pub fn battery_percent(batmv: u32) -> (r: u32)
    ensures
        r == spec_battery_percent(batmv as nat),
        r <= 100,
{
    proof {
        lemma_battery_percent_bounds(batmv as nat);
    }
    if batmv < BATTERY_MINV {
        0
    } else if batmv > BATTERY_MAXV {
        100
    } else {
        proof {
            assert((batmv - BATTERY_MINV) * 100 <= 80000) by (nonlinear_arith)
                requires
                    BATTERY_MINV <= batmv <= BATTERY_MAXV,
            ;
        }
        (batmv - BATTERY_MINV) * 100 / (BATTERY_MAXV - BATTERY_MINV)
    }
}

/// The four rectangles of the battery gauge: body, nib, inner background,
/// and the fill bar whose width is proportional to the charge.
pub open spec fn battery_ops(loc: Point, percent: int) -> Seq<DrawOp> {
    seq![
        DrawOp::Rect { x: loc.x, y: loc.y, width: 30, height: 16, fill_on: true },
        DrawOp::Rect { x: (loc.x + 30) as i32, y: (loc.y + 5) as i32, width: 3, height: 6, fill_on: true },
        DrawOp::Rect { x: (loc.x + 2) as i32, y: (loc.y + 2) as i32, width: 26, height: 12, fill_on: false },
        DrawOp::Rect {
            x: (loc.x + 3) as i32,
            y: (loc.y + 3) as i32,
            width: (24 * percent / 100) as i32,
            height: 10,
            fill_on: true,
        },
    ]
}

/// Draws the battery gauge at `loc`: a bordered body with a nib, and a fill
/// bar scaled to `percent`.
pub fn render_battery(ops: &mut Vec<DrawOp>, layout: &Layout, loc: Point, percent: u32)
    requires
        crate::layout::coord_ok(loc),
        percent <= 100,
    ensures
        final(ops)@ == old(ops)@ + battery_ops(loc, percent as int),
{
    let ghost ops0 = ops@;
    ops.push(DrawOp::Rect { x: loc.x, y: loc.y, width: 30, height: 16, fill_on: true });
    ops.push(DrawOp::Rect { x: loc.x + 30, y: loc.y + 5, width: 3, height: 6, fill_on: true });
    ops.push(DrawOp::Rect { x: loc.x + 2, y: loc.y + 2, width: 26, height: 12, fill_on: false });
    ops.push(
        DrawOp::Rect {
            x: loc.x + 3,
            y: loc.y + 3,
            width: (24 * percent / 100) as i32,
            height: 10,
            fill_on: true,
        },
    );
    proof {
        assert(ops@ =~= ops0 + battery_ops(loc, percent as int));
    }
}

/// Where the gauge sits when centred at the top of a display `width` pixels
/// wide.
pub open spec fn battery_centre(width: int) -> Point {
    Point { x: ((width - 30) / 2) as i32, y: 15 }
}

/// Draws the battery gauge centred at the top of the display.
pub fn render_battery_top_centre(
    ops: &mut Vec<DrawOp>,
    layout: &Layout,
    display_width: i32,
    percent: u32,
)
    requires
        30 <= display_width <= 10000,
        percent <= 100,
    ensures
        final(ops)@ == old(ops)@ + battery_ops(battery_centre(display_width as int), percent as int),
{
    let loc = Point { x: (display_width - 30) / 2, y: 15 };
    render_battery(ops, layout, loc, percent);
}

/// The status line's satellite text: `"Sats: "` then the count, padded with
/// spaces into its 8 cells (and truncated there if the count is wide).
pub open spec fn sats_content(n: nat) -> Seq<u8> {
    let t = seq![83u8, 97u8, 116u8, 115u8, 58u8, 32u8] + dec_rep(n);
    if t.len() <= 8 {
        t + Seq::new((8 - t.len()) as nat, |i: int| 32u8)
    } else {
        t.take(8)
    }
}

/// A line of 8 spaces (the blanked satellite field).
pub open spec fn blank8() -> Seq<u8> {
    Seq::new(8, |i: int| 32u8)
}

/// The draw operations one status-line render issues, given its state.
pub open spec fn status_line_ops(
    sats_chars: Seq<u8>,
    sats_dirty: Seq<bool>,
    bat_percent: Option<u32>,
    label_chars: Seq<u8>,
    label_dirty: Seq<bool>,
) -> Seq<DrawOp> {
    field_ops(FontId::Med, Point { x: 32, y: 14 }, sats_chars, sats_dirty) + (match bat_percent {
        Some(p) => battery_ops(battery_centre(400), p as int),
        None => Seq::empty(),
    }) + field_ops(FontId::Med, Point { x: 464, y: 14 }, label_chars, label_dirty)
}

/// The shared top line: satellite count, battery gauge, unit label.
///
/// The satellite field blinks (alternates with blank) while the receiver
/// reports zero satellites, to tell "listening, no fix" from "no data".
pub struct StatusLine {
    sats_field: DisplayField<8>,
    sats_blink: bool,
    bat_percent: Option<u32>,
    label: DisplayField<4>,
}

impl StatusLine {
    pub closed spec fn sats_chars(&self) -> Seq<u8> {
        self.sats_field.chars()
    }

    pub closed spec fn sats_dirty(&self) -> Seq<bool> {
        self.sats_field.dirty_mask()
    }

    pub closed spec fn blink(&self) -> bool {
        self.sats_blink
    }

    pub closed spec fn bat(&self) -> Option<u32> {
        self.bat_percent
    }

    pub closed spec fn label_chars(&self) -> Seq<u8> {
        self.label.chars()
    }

    pub closed spec fn label_dirty(&self) -> Seq<bool> {
        self.label.dirty_mask()
    }

    pub open spec fn wf(&self) -> bool {
        &&& self.sats_chars().len() == 8
        &&& self.sats_dirty().len() == 8
        &&& self.label_chars().len() == 4
        &&& self.label_dirty().len() == 4
        &&& (self.bat() matches Some(p) ==> p <= 100)
    }

    /// The draw operations this status line would issue next.
    pub open spec fn render_ops(&self) -> Seq<DrawOp> {
        status_line_ops(
            self.sats_chars(),
            self.sats_dirty(),
            self.bat(),
            self.label_chars(),
            self.label_dirty(),
        )
    }

    pub fn new(label: &[u8]) -> (r: StatusLine)
        requires
            label@.len() <= 4,
        ensures
            r.wf(),
            r.sats_chars() == blank8(),
            r.sats_dirty() == Seq::new(8, |i: int| true),
            !r.blink(),
            r.bat() is None,
            r.label_chars() == label@ + Seq::new((4 - label@.len()) as nat, |i: int| 32u8),
            r.label_dirty() == Seq::new(4, |i: int| true),
    {
        let r = StatusLine {
            sats_field: DisplayField::new(),
            sats_blink: false,
            bat_percent: None,
            label: DisplayField::from_str(label),
        };
        proof {
            assert(r.sats_chars() =~= blank8());
        }
        r
    }

    /// Draws the three parts at their fixed positions and marks the fields
    /// clean.
    pub fn render(&mut self, layout: &Layout, ops: &mut Vec<DrawOp>)
        requires
            old(self).wf(),
        ensures
            final(self).wf(),
            final(ops)@ == old(ops)@ + old(self).render_ops(),
            final(self).sats_chars() == old(self).sats_chars(),
            final(self).sats_dirty() == Seq::new(8, |i: int| false),
            final(self).label_chars() == old(self).label_chars(),
            final(self).label_dirty() == Seq::new(4, |i: int| false),
            final(self).blink() == old(self).blink(),
            final(self).bat() == old(self).bat(),
    {
        let ghost ops0 = ops@;
        layout.render_field(ops, Point { x: 2 * CHAR_WIDTH, y: CHAR_HEIGHT / 2 }, &mut self.sats_field);
        match self.bat_percent {
            Some(bat_percent) => {
                render_battery_top_centre(ops, layout, 400, bat_percent);
            },
            None => {},
        }
        layout.render_field(ops, Point { x: 29 * CHAR_WIDTH, y: CHAR_HEIGHT / 2 }, &mut self.label);
        proof {
            assert(ops@ =~= ops0 + old(self).render_ops());
        }
    }

    pub fn update(&mut self, update: &Update)
        requires
            old(self).wf(),
        ensures
            final(self).wf(),
            *update matches Update::Gps(g) ==> updated_gps(*old(self), *final(self), g),
            *update matches Update::Vbat(mv) ==> updated_vbat(*old(self), *final(self), mv),
    {
        match update {
            Update::Gps(gps) => self.update_gps(gps),
            Update::Vbat(vbat) => self.update_vbat(*vbat),
        }
    }

    /// Records the battery reading as a clamped percentage.
    pub fn update_vbat(&mut self, mv: u16)
        requires
            old(self).wf(),
        ensures
            final(self).wf(),
            updated_vbat(*old(self), *final(self), mv),
    {
        self.bat_percent = Some(battery_percent(mv as u32));
    }

    /// Refreshes the satellite field; while the count is zero, every other
    /// update blanks the field so it visibly blinks.
    pub fn update_gps(&mut self, gps: &GpsData)
        requires
            old(self).wf(),
        ensures
            final(self).wf(),
            updated_gps(*old(self), *final(self), *gps),
    {
        self.sats_blink = !self.sats_blink;
        if gps.sat_in_use == 0 && self.sats_blink {
            self.sats_field.clear();
        } else {
            let mut w = U8Writer::new(8);
            let prefix: Vec<u8> = vec![83u8, 97, 116, 115, 58, 32];
            w.write_str(prefix.as_slice());
            w.write_uint(gps.sat_in_use as u64);
            w.fill(32);
            proof {
                assert(crate::u8writer::pow10(3) == 1000) by {
                    assert(crate::u8writer::pow10(0) == 1);
                    assert(crate::u8writer::pow10(1) == 10);
                    assert(crate::u8writer::pow10(2) == 100);
                }
                crate::u8writer::lemma_digits_len(gps.sat_in_use as nat, 3);
                assert(w.bytes() =~= sats_content(gps.sat_in_use as nat));
            }
            self.sats_field.update_from(w.buffer().as_slice());
        }
    }
}

/// How a battery reading changes a status line: only the gauge percentage.
pub open spec fn updated_vbat(old: StatusLine, new: StatusLine, mv: u16) -> bool {
    &&& new.bat() == Some(spec_battery_percent(mv as nat) as u32)
    &&& new.sats_chars() == old.sats_chars()
    &&& new.sats_dirty() == old.sats_dirty()
    &&& new.blink() == old.blink()
    &&& new.label_chars() == old.label_chars()
    &&& new.label_dirty() == old.label_dirty()
}

/// How a navigation snapshot changes a status line: the blink phase flips,
/// and the satellite field shows the count — or goes blank on the blink
/// phase while the count is zero.
pub open spec fn updated_gps(old: StatusLine, new: StatusLine, g: GpsData) -> bool {
    let content = if g.sat_in_use == 0 && !old.blink() {
        blank8()
    } else {
        sats_content(g.sat_in_use as nat)
    };
    &&& new.blink() == !old.blink()
    &&& new.sats_chars() == content
    &&& new.sats_dirty() == diff_dirty(old.sats_chars(), old.sats_dirty(), content)
    &&& new.bat() == old.bat()
    &&& new.label_chars() == old.label_chars()
    &&& new.label_dirty() == old.label_dirty()
}

/// A change-tracked value after `set(v)`: kept as was if equal, else the
/// new value with the change marker raised.
pub open spec fn upd_set<T>(old: (T, bool), v: T) -> (T, bool) {
    if old.0 == v {
        old
    } else {
        (v, true)
    }
}

/// Ground speed in tenths of a knot, rounded to nearest, from milli-knots.
pub open spec fn speed_display(mkn: nat) -> nat {
    (mkn + 50) / 100
}

/// Rounding division by 100 computed without the additive overflow.
pub fn round_div_100(v: u64) -> (r: u64)
    ensures
        r == speed_display(v as nat),
{
    proof {
        assert((v as nat + 50) / 100 == v as nat / 100 + (if v as nat % 100 >= 50 {
            1nat
        } else {
            0nat
        })) by (nonlinear_arith);
    }
    v / 100 + (if v % 100 >= 50 {
        1
    } else {
        0
    })
}

/// The digit glyph for `d`, or a space when a leading zero is blanked.
pub open spec fn digit_char(d: u8) -> u8 {
    (48 + d) as u8
}

/// The big-digit speed page: the smoothed speed as `dd.d` knots in the big
/// font, over the shared status line.
pub struct SpeedScreen {
    status_line: StatusLine,
    digit0: Updateable<u8>,
    digit1: Updateable<u8>,
    digit2: Updateable<u8>,
}

/// Where the big speed digits start: grid cell (0, 2) of the medium font.
pub open spec fn speed_loc() -> Point {
    Point { x: 4, y: 68 }
}

impl SpeedScreen {
    pub closed spec fn status(&self) -> StatusLine {
        self.status_line
    }

    pub closed spec fn d0(&self) -> (u8, bool) {
        (self.digit0.spec_value(), self.digit0.is_updated())
    }

    pub closed spec fn d1(&self) -> (u8, bool) {
        (self.digit1.spec_value(), self.digit1.is_updated())
    }

    pub closed spec fn d2(&self) -> (u8, bool) {
        (self.digit2.spec_value(), self.digit2.is_updated())
    }

    pub open spec fn wf(&self) -> bool {
        &&& self.status().wf()
        &&& self.d0().0 < 10
        &&& self.d1().0 < 10
        &&& self.d2().0 < 10
    }

    /// The draw operations one render issues: each changed digit at its
    /// fixed slot (the leading digit blanked when zero), and the decimal
    /// point, which is always drawn.
    pub open spec fn speed_ops(&self) -> Seq<DrawOp> {
        let loc = speed_loc();
        (if self.d0().1 {
            seq![
                DrawOp::Glyph {
                    font: FontId::BigDigits,
                    x: loc.x,
                    y: loc.y,
                    ch: if self.d0().0 == 0 {
                        32
                    } else {
                        digit_char(self.d0().0)
                    },
                },
            ]
        } else {
            Seq::empty()
        }) + (if self.d1().1 {
            seq![
                DrawOp::Glyph {
                    font: FontId::BigDigits,
                    x: (loc.x + 120) as i32,
                    y: loc.y,
                    ch: digit_char(self.d1().0),
                },
            ]
        } else {
            Seq::empty()
        }) + seq![crate::layout::dot_op(FontId::BigDigits, Point { x: (loc.x + 240) as i32, y: loc.y })]
            + (if self.d2().1 {
            seq![
                DrawOp::Glyph {
                    font: FontId::BigDigits,
                    x: (loc.x + 240 + 22) as i32,
                    y: loc.y,
                    ch: digit_char(self.d2().0),
                },
            ]
        } else {
            Seq::empty()
        })
    }

    pub fn new() -> (r: SpeedScreen)
        ensures
            r.wf(),
            r.status().sats_chars() == blank8(),
            r.status().sats_dirty() == Seq::new(8, |i: int| true),
            r.status().label_chars() == pad_clip(seq![107u8, 116u8], 4),
            r.status().label_dirty() == Seq::new(4, |i: int| true),
            r.status().bat() is None,
            !r.status().blink(),
            r.d0() == ((0u8, true)),
            r.d1() == ((0u8, true)),
            r.d2() == ((0u8, true)),
    {
        let label: Vec<u8> = vec![107u8, 116];
        let r = SpeedScreen {
            status_line: StatusLine::new(label.as_slice()),
            digit0: Updateable::new(0),
            digit1: Updateable::new(0),
            digit2: Updateable::new(0),
        };
        proof {
            assert(r.status().label_chars() =~= pad_clip(seq![107u8, 116u8], 4));
        }
        r
    }

    /// Draws the status line and every changed speed digit, consuming the
    /// change markers.
    pub fn render(&mut self, layout: &Layout, ops: &mut Vec<DrawOp>)
        requires
            old(self).wf(),
        ensures
            final(self).wf(),
            final(ops)@ == old(ops)@ + old(self).status().render_ops() + old(self).speed_ops(),
            final(self).status().sats_chars() == old(self).status().sats_chars(),
            final(self).status().sats_dirty() == Seq::new(8, |i: int| false),
            final(self).status().label_chars() == old(self).status().label_chars(),
            final(self).status().label_dirty() == Seq::new(4, |i: int| false),
            final(self).status().bat() == old(self).status().bat(),
            final(self).status().blink() == old(self).status().blink(),
            final(self).d0() == ((old(self).d0().0, false)),
            final(self).d1() == ((old(self).d1().0, false)),
            final(self).d2() == ((old(self).d2().0, false)),
    {
        let ghost ops0 = ops@;
        self.status_line.render(layout, ops);
        self.render_speed(layout, ops, layout.char_point(0, 2));
        proof {
            assert(ops@ =~= ops0 + old(self).status().render_ops() + old(self).speed_ops());
        }
    }

    fn render_speed(&mut self, layout: &Layout, ops: &mut Vec<DrawOp>, loc: Point)
        requires
            old(self).wf(),
            loc == speed_loc(),
        ensures
            final(self).wf(),
            final(ops)@ == old(ops)@ + old(self).speed_ops(),
            final(self).status() == old(self).status(),
            final(self).d0() == ((old(self).d0().0, false)),
            final(self).d1() == ((old(self).d1().0, false)),
            final(self).d2() == ((old(self).d2().0, false)),
    {
        let ghost ops0 = ops@;
        let mut cursor = loc;
        match self.digit0.updated() {
            Some(d) => {
                let c: u8 = if d == 0 {
                    32
                } else {
                    48 + d
                };
                cursor = layout.write_big_char(ops, cursor, c);
            },
            None => {
                cursor = Point { x: cursor.x + crate::layout::BIG_CHAR_WIDTH, y: cursor.y };
            },
        }
        match self.digit1.updated() {
            Some(d) => {
                cursor = layout.write_big_char(ops, cursor, 48 + d);
            },
            None => {
                cursor = Point { x: cursor.x + crate::layout::BIG_CHAR_WIDTH, y: cursor.y };
            },
        }
        cursor = layout.write_big_dp(ops, cursor);
        match self.digit2.updated() {
            Some(d) => {
                layout.write_big_char(ops, cursor, 48 + d);
            },
            None => {},
        }
        proof {
            assert(ops@ =~= ops0 + old(self).speed_ops());
        }
    }

    pub fn update(&mut self, update: &Update)
        requires
            old(self).wf(),
        ensures
            final(self).wf(),
            *update matches Update::Gps(g) ==> {
                &&& updated_gps(old(self).status(), final(self).status(), g)
                &&& speed_digits_set(*old(self), *final(self), g.speed)
            },
            *update matches Update::Vbat(mv) ==> {
                &&& updated_vbat(old(self).status(), final(self).status(), mv)
                &&& final(self).d0() == old(self).d0()
                &&& final(self).d1() == old(self).d1()
                &&& final(self).d2() == old(self).d2()
            },
    {
        self.status_line.update(update);
        match update {
            Update::Gps(gps) => self.update_gps(gps),
            _ => {},
        }
    }

    fn update_gps(&mut self, gps: &GpsData)
        requires
            old(self).wf(),
        ensures
            final(self).wf(),
            final(self).status() == old(self).status(),
            speed_digits_set(*old(self), *final(self), gps.speed),
    {
        let speed = round_div_100(gps.speed);
        self.digit0.set(((speed / 100) % 10) as u8);
        self.digit1.set(((speed / 10) % 10) as u8);
        self.digit2.set((speed % 10) as u8);
    }
}

/// The three speed digits after a snapshot: hundreds, tens and tenths of a
/// knot of the rounded smoothed speed, each through its change tracker.
pub open spec fn speed_digits_set(old: SpeedScreen, new: SpeedScreen, mkn: u64) -> bool {
    let v = speed_display(mkn as nat);
    &&& new.d0() == upd_set(old.d0(), ((v / 100) % 10) as u8)
    &&& new.d1() == upd_set(old.d1(), ((v / 10) % 10) as u8)
    &&& new.d2() == upd_set(old.d2(), (v % 10) as u8)
}

/// Course over ground rounded to whole degrees, from 1e-5 degree units; a
/// negative raw value reads as zero.
pub open spec fn cog_display(raw: int) -> nat {
    if raw < 0 {
        0
    } else {
        (((raw + 50000) / 100000) as nat)
    }
}

/// The course page: three big digits of the course over ground, dashes
/// while there is no fix, over the shared status line.
pub struct CogScreen {
    status_line: StatusLine,
    digit0: Updateable<Option<u8>>,
    digit1: Updateable<Option<u8>>,
    digit2: Updateable<Option<u8>>,
}

/// The character a course digit slot shows: the digit, or a dash while the
/// course is unknown.
pub open spec fn cog_char(d: Option<u8>) -> u8 {
    match d {
        Some(d) => digit_char(d),
        None => 45,
    }
}

impl CogScreen {
    pub closed spec fn status(&self) -> StatusLine {
        self.status_line
    }

    pub closed spec fn d0(&self) -> (Option<u8>, bool) {
        (self.digit0.spec_value(), self.digit0.is_updated())
    }

    pub closed spec fn d1(&self) -> (Option<u8>, bool) {
        (self.digit1.spec_value(), self.digit1.is_updated())
    }

    pub closed spec fn d2(&self) -> (Option<u8>, bool) {
        (self.digit2.spec_value(), self.digit2.is_updated())
    }

    pub open spec fn wf(&self) -> bool {
        &&& self.status().wf()
        &&& (self.d0().0 matches Some(d) ==> d < 10)
        &&& (self.d1().0 matches Some(d) ==> d < 10)
        &&& (self.d2().0 matches Some(d) ==> d < 10)
    }

    /// The draw operations one render issues: each changed digit slot at
    /// its fixed position.
    pub open spec fn cog_ops(&self) -> Seq<DrawOp> {
        let loc = speed_loc();
        (if self.d0().1 {
            seq![
                DrawOp::Glyph { font: FontId::BigDigits, x: loc.x, y: loc.y, ch: cog_char(self.d0().0) },
            ]
        } else {
            Seq::empty()
        }) + (if self.d1().1 {
            seq![
                DrawOp::Glyph {
                    font: FontId::BigDigits,
                    x: (loc.x + 120) as i32,
                    y: loc.y,
                    ch: cog_char(self.d1().0),
                },
            ]
        } else {
            Seq::empty()
        }) + (if self.d2().1 {
            seq![
                DrawOp::Glyph {
                    font: FontId::BigDigits,
                    x: (loc.x + 240) as i32,
                    y: loc.y,
                    ch: cog_char(self.d2().0),
                },
            ]
        } else {
            Seq::empty()
        })
    }

    pub fn new() -> (r: CogScreen)
        ensures
            r.wf(),
            r.status().sats_chars() == blank8(),
            r.status().sats_dirty() == Seq::new(8, |i: int| true),
            r.status().label_chars() == pad_clip(seq![67u8, 79u8, 71u8], 4),
            r.status().label_dirty() == Seq::new(4, |i: int| true),
            r.status().bat() is None,
            !r.status().blink(),
            r.d0() == ((None::<u8>, true)),
            r.d1() == ((None::<u8>, true)),
            r.d2() == ((None::<u8>, true)),
    {
        let label: Vec<u8> = vec![67u8, 79, 71];
        let r = CogScreen {
            status_line: StatusLine::new(label.as_slice()),
            digit0: Updateable::new(None),
            digit1: Updateable::new(None),
            digit2: Updateable::new(None),
        };
        proof {
            assert(r.status().label_chars() =~= pad_clip(seq![67u8, 79u8, 71u8], 4));
        }
        r
    }

    /// Draws the status line and every changed course digit, consuming the
    /// change markers.
    pub fn render(&mut self, layout: &Layout, ops: &mut Vec<DrawOp>)
        requires
            old(self).wf(),
        ensures
            final(self).wf(),
            final(ops)@ == old(ops)@ + old(self).status().render_ops() + old(self).cog_ops(),
            final(self).status().sats_chars() == old(self).status().sats_chars(),
            final(self).status().sats_dirty() == Seq::new(8, |i: int| false),
            final(self).status().label_chars() == old(self).status().label_chars(),
            final(self).status().label_dirty() == Seq::new(4, |i: int| false),
            final(self).status().bat() == old(self).status().bat(),
            final(self).status().blink() == old(self).status().blink(),
            final(self).d0() == ((old(self).d0().0, false)),
            final(self).d1() == ((old(self).d1().0, false)),
            final(self).d2() == ((old(self).d2().0, false)),
    {
        let ghost ops0 = ops@;
        self.status_line.render(layout, ops);
        self.render_cog(layout, ops, layout.char_point(0, 2));
        proof {
            assert(ops@ =~= ops0 + old(self).status().render_ops() + old(self).cog_ops());
        }
    }

    fn render_cog(&mut self, layout: &Layout, ops: &mut Vec<DrawOp>, loc: Point)
        requires
            old(self).wf(),
            loc == speed_loc(),
        ensures
            final(self).wf(),
            final(ops)@ == old(ops)@ + old(self).cog_ops(),
            final(self).status() == old(self).status(),
            final(self).d0() == ((old(self).d0().0, false)),
            final(self).d1() == ((old(self).d1().0, false)),
            final(self).d2() == ((old(self).d2().0, false)),
    {
        let ghost ops0 = ops@;
        let mut cursor = loc;
        match self.digit0.updated() {
            Some(od) => {
                cursor = layout.write_big_char(ops, cursor, cog_char_of(od));
            },
            None => {
                cursor = Point { x: cursor.x + crate::layout::BIG_CHAR_WIDTH, y: cursor.y };
            },
        }
        match self.digit1.updated() {
            Some(od) => {
                cursor = layout.write_big_char(ops, cursor, cog_char_of(od));
            },
            None => {
                cursor = Point { x: cursor.x + crate::layout::BIG_CHAR_WIDTH, y: cursor.y };
            },
        }
        match self.digit2.updated() {
            Some(od) => {
                layout.write_big_char(ops, cursor, cog_char_of(od));
            },
            None => {},
        }
        proof {
            assert(ops@ =~= ops0 + old(self).cog_ops());
        }
    }

    pub fn update(&mut self, update: &Update)
        requires
            old(self).wf(),
        ensures
            final(self).wf(),
            *update matches Update::Gps(g) ==> {
                &&& updated_gps_twice(old(self).status(), final(self).status(), g)
                &&& cog_digits_set(*old(self), *final(self), g.course)
            },
            *update matches Update::Vbat(mv) ==> {
                &&& updated_vbat(old(self).status(), final(self).status(), mv)
                &&& final(self).d0() == old(self).d0()
                &&& final(self).d1() == old(self).d1()
                &&& final(self).d2() == old(self).d2()
            },
    {
        self.status_line.update(update);
        match update {
            Update::Gps(gps) => self.update_gps(gps),
            _ => {},
        }
    }

    fn update_gps(&mut self, gps: &GpsData)
        requires
            old(self).wf(),
        ensures
            final(self).wf(),
            updated_gps(old(self).status(), final(self).status(), *gps),
            cog_digits_set(*old(self), *final(self), gps.course),
    {
        self.status_line.update_gps(gps);

        match gps.course {
            Some(course) => {
                let cog: u32 = if course < 0 {
                    0
                } else {
                    (course as u32 + 50000) / 100000
                };
                self.digit0.set(Some(((cog / 100) % 10) as u8));
                self.digit1.set(Some(((cog / 10) % 10) as u8));
                self.digit2.set(Some((cog % 10) as u8));
            },
            None => {
                self.digit0.set(None);
                self.digit1.set(None);
                self.digit2.set(None);
            },
        }
    }
}

/// The byte drawn for a course digit slot.
fn cog_char_of(od: Option<u8>) -> (r: u8)
    requires
        od matches Some(d) ==> d < 10,
    ensures
        r == cog_char(od),
{
    match od {
        Some(d) => 48 + d,
        None => 45,
    }
}

/// How a snapshot changes a status line that is refreshed twice in one
/// update (the course and telemetry pages update the shared line once from
/// the dispatcher and once from their own handler): the blink phase flips
/// twice, so it is back where it was, and the field shows the second
/// write's content, diffed through the first.
pub open spec fn updated_gps_twice(old: StatusLine, new: StatusLine, g: GpsData) -> bool {
    let c1 = if g.sat_in_use == 0 && !old.blink() {
        blank8()
    } else {
        sats_content(g.sat_in_use as nat)
    };
    let c2 = if g.sat_in_use == 0 && old.blink() {
        blank8()
    } else {
        sats_content(g.sat_in_use as nat)
    };
    &&& new.blink() == old.blink()
    &&& new.sats_chars() == c2
    &&& new.sats_dirty() == diff_dirty(c1, diff_dirty(old.sats_chars(), old.sats_dirty(), c1), c2)
    &&& new.bat() == old.bat()
    &&& new.label_chars() == old.label_chars()
    &&& new.label_dirty() == old.label_dirty()
}

/// The three course digit slots after a snapshot: hundreds, tens and units
/// of the rounded course, or all dashes without a fix, each through its
/// change tracker.
pub open spec fn cog_digits_set(old: CogScreen, new: CogScreen, course: Option<i32>) -> bool {
    match course {
        Some(raw) => {
            let v = cog_display(raw as int);
            &&& new.d0() == upd_set(old.d0(), Some(((v / 100) % 10) as u8))
            &&& new.d1() == upd_set(old.d1(), Some(((v / 10) % 10) as u8))
            &&& new.d2() == upd_set(old.d2(), Some((v % 10) as u8))
        },
        None => {
            &&& new.d0() == upd_set(old.d0(), None::<u8>)
            &&& new.d1() == upd_set(old.d1(), None::<u8>)
            &&& new.d2() == upd_set(old.d2(), None::<u8>)
        },
    }
}

/// Clips `t` to `n` cells, padding with spaces when it is shorter.
pub open spec fn pad_clip(t: Seq<u8>, n: nat) -> Seq<u8> {
    if t.len() <= n {
        t + Seq::new((n - t.len()) as nat, |i: int| 32u8)
    } else {
        t.take(n as int)
    }
}

/// Clips `t` to the 8 bytes of the numeric scratch writer.
pub open spec fn clip8(t: Seq<u8>) -> Seq<u8> {
    if t.len() <= 8 {
        t
    } else {
        t.take(8)
    }
}

/// A value in tenths shown as `dd.d`: the whole part right-aligned in two
/// cells (wider values keep all their digits), then the point and the
/// tenths digit.
pub open spec fn dd_d_text(v: nat) -> Seq<u8> {
    (if digits_of(v / 10).len() <= 2 {
        crate::u8writer::padded_num(2, 32, v / 10)
    } else {
        digits_of(v / 10)
    }) + seq![46u8] + dec_rep(v % 10)
}

/// Formats a value in tenths as `dd.d` into at most 8 bytes.
pub fn format_dd_d(v: u64) -> (r: Vec<u8>)
    ensures
        r@ == clip8(dd_d_text(v as nat)),
        r@.len() <= 8,
{
    let mut w = U8Writer::new(8);
    let v10 = v / 10;
    if v10 <= 99 {
        proof {
            assert(crate::u8writer::pow10(2) == 100) by {
                assert(crate::u8writer::pow10(0) == 1);
                assert(crate::u8writer::pow10(1) == 10);
            }
            crate::u8writer::lemma_digits_len(v10 as nat, 2);
        }
        let _ = w.write_number(2, 32, v10 as u32);
    } else {
        w.write_uint(v10);
    }
    let _ = w.write_char(46);
    proof {
        if v / 10 > 99 {
            assert(crate::u8writer::pow10(2) == 100) by {
                assert(crate::u8writer::pow10(0) == 1);
                assert(crate::u8writer::pow10(1) == 10);
            }
            crate::u8writer::lemma_digits_len_lower((v / 10) as nat, 2);
        }
        assert(crate::u8writer::pow10(1) == 10) by {
            assert(crate::u8writer::pow10(0) == 1);
        }
        crate::u8writer::lemma_digits_len((v % 10) as nat, 1);
        assert(crate::u8writer::padded_num(1, 48, (v % 10) as nat) =~= dec_rep((v % 10) as nat));
    }
    let _ = w.write_number(1, 48, (v % 10) as u32);
    let r = w.as_str();
    proof {
        assert(r@ =~= clip8(dd_d_text(v as nat)));
    }
    r
}

/// An hour, minute or second: two zero-padded digits (a corrupt value over
/// 99 keeps all its digits).
pub open spec fn two_digit_text(x: nat) -> Seq<u8> {
    if digits_of(x).len() <= 2 {
        crate::u8writer::padded_num(2, 48, x)
    } else {
        digits_of(x)
    }
}

/// The stats page's time text: `hh:mm:ss`, or dashes without a fix time.
pub open spec fn time_text(t: Option<GpsTime>) -> Seq<u8> {
    match t {
        Some(t) => two_digit_text(t.hour as nat) + seq![58u8] + two_digit_text(t.min as nat)
            + seq![58u8] + two_digit_text(t.sec as nat),
        None => seq![45u8, 45u8, 58u8, 45u8, 45u8, 58u8, 45u8, 45u8],
    }
}

/// Writes one two-digit time part.
fn write_two_digits(w: &mut U8Writer, x: u8)
    requires
        old(w).wf(),
    ensures
        final(w).wf(),
        final(w).bytes() == crate::u8writer::spliced(
            old(w).bytes(),
            old(w).cursor(),
            two_digit_text(x as nat).take(
                crate::u8writer::min_nat(
                    two_digit_text(x as nat).len(),
                    (old(w).spec_capacity() - old(w).cursor()) as nat,
                ) as int,
            ),
        ),
        final(w).cursor() == old(w).cursor() + crate::u8writer::min_nat(
            two_digit_text(x as nat).len(),
            (old(w).spec_capacity() - old(w).cursor()) as nat,
        ),
        2 <= two_digit_text(x as nat).len() <= 3,
{
    proof {
        assert(crate::u8writer::pow10(3) == 1000) by {
            assert(crate::u8writer::pow10(0) == 1);
            assert(crate::u8writer::pow10(1) == 10);
            assert(crate::u8writer::pow10(2) == 100);
        }
        crate::u8writer::lemma_digits_len(x as nat, 3);
    }
    if x <= 99 {
        proof {
            assert(crate::u8writer::pow10(2) == 100) by {
                assert(crate::u8writer::pow10(0) == 1);
                assert(crate::u8writer::pow10(1) == 10);
            }
            crate::u8writer::lemma_digits_len(x as nat, 2);
        }
        let _ = w.write_number(2, 48, x as u32);
    } else {
        w.write_uint(x as u64);
        proof {
            assert(crate::u8writer::pow10(2) == 100) by {
                assert(crate::u8writer::pow10(0) == 1);
                assert(crate::u8writer::pow10(1) == 10);
            }
            crate::u8writer::lemma_digits_len_lower(x as nat, 2);
            assert(two_digit_text(x as nat) == dec_rep(x as nat));
        }
    }
}

/// Formats a fix time as `hh:mm:ss` (dashes without one) into 20 bytes.
pub fn format_time(t: &Option<GpsTime>) -> (r: Vec<u8>)
    ensures
        r@ == time_text(*t),
        r@.len() <= 11,
{
    let mut w = U8Writer::new(20);
    match t {
        Some(t) => {
            write_two_digits(&mut w, t.hour);
            let ghost p1 = two_digit_text(t.hour as nat);
            proof {
                assert(w.written() =~= p1);
            }
            let _ = w.write_char(58);
            let ghost p2 = p1 + seq![58u8];
            proof {
                assert(w.written() =~= p2);
            }
            write_two_digits(&mut w, t.min);
            let ghost p3 = p2 + two_digit_text(t.min as nat);
            proof {
                assert(w.written() =~= p3);
            }
            let _ = w.write_char(58);
            let ghost p4 = p3 + seq![58u8];
            proof {
                assert(w.written() =~= p4);
            }
            write_two_digits(&mut w, t.sec);
            proof {
                assert(w.written() =~= p4 + two_digit_text(t.sec as nat));
            }
        },
        None => {
            let dashes: Vec<u8> = vec![45u8, 45, 58, 45, 45, 58, 45, 45];
            w.write_str(dashes.as_slice());
        },
    }
    let r = w.as_str();
    proof {
        assert(r@ =~= time_text(*t));
    }
    r
}

pub open spec fn label_max_kt() -> Seq<u8> {
    seq![109u8, 97u8, 120u8, 32u8, 107u8, 116u8]
}

pub open spec fn label_max_kt_avg() -> Seq<u8> {
    seq![109u8, 97u8, 120u8, 32u8, 107u8, 116u8, 32u8, 97u8, 118u8, 103u8, 49u8, 48u8]
}

pub open spec fn label_dist_nm() -> Seq<u8> {
    seq![100u8, 105u8, 115u8, 116u8, 32u8, 110u8, 109u8]
}

pub open spec fn label_time() -> Seq<u8> {
    seq![116u8, 105u8, 109u8, 101u8]
}

/// Session distance in tenths of a nautical mile, rounded to nearest, from
/// meters (1 nm = 1852 m).
pub open spec fn dist_deci_nm(m: nat) -> nat {
    (m * 10 + 926) / 1852
}

/// The statistics page: running maxima, session distance and the fix time,
/// in four quadrants split by two rules.
pub struct StatsScreen {
    max_speed: Updateable<u64>,
    max_avg_speed: Updateable<u64>,
    distance_nm: Updateable<u32>,
    time: Updateable<Option<GpsTime>>,
}

impl StatsScreen {
    pub closed spec fn ms(&self) -> (u64, bool) {
        (self.max_speed.spec_value(), self.max_speed.is_updated())
    }

    pub closed spec fn mas(&self) -> (u64, bool) {
        (self.max_avg_speed.spec_value(), self.max_avg_speed.is_updated())
    }

    pub closed spec fn dist(&self) -> (u32, bool) {
        (self.distance_nm.spec_value(), self.distance_nm.is_updated())
    }

    pub closed spec fn time_v(&self) -> (Option<GpsTime>, bool) {
        (self.time.spec_value(), self.time.is_updated())
    }

    /// The draw operations one render issues: the two rules and the four
    /// labels always, each value only when it changed.
    pub open spec fn stats_ops(&self) -> Seq<DrawOp> {
        seq![
            DrawOp::Line { x0: 0, y0: 120, x1: 400, y1: 120 },
            DrawOp::Line { x0: 200, y0: 0, x1: 200, y1: 240 },
        ] + crate::layout::text_ops(FontId::Med, Point { x: 10, y: 5 }, label_max_kt()) + (
        if self.ms().1 {
            crate::layout::kerned_ops(
                FontId::MedDigits,
                Point { x: 0, y: 35 },
                clip8(dd_d_text(speed_display(self.ms().0 as nat))),
            )
        } else {
            Seq::empty()
        }) + crate::layout::text_ops(FontId::Med, Point { x: 215, y: 5 }, label_max_kt_avg()) + (
        if self.mas().1 {
            crate::layout::kerned_ops(
                FontId::MedDigits,
                Point { x: 205, y: 35 },
                clip8(dd_d_text(speed_display(self.mas().0 as nat))),
            )
        } else {
            Seq::empty()
        }) + crate::layout::text_ops(FontId::Med, Point { x: 10, y: 125 }, label_dist_nm()) + (
        if self.dist().1 {
            crate::layout::kerned_ops(
                FontId::MedDigits,
                Point { x: 0, y: 155 },
                clip8(dd_d_text(self.dist().0 as nat)),
            )
        } else {
            Seq::empty()
        }) + crate::layout::text_ops(FontId::Med, Point { x: 215, y: 125 }, label_time()) + (
        if self.time_v().1 {
            crate::layout::text_ops(
                FontId::Med,
                Point { x: 245, y: 175 },
                time_text(self.time_v().0),
            )
        } else {
            Seq::empty()
        })
    }

    pub fn new() -> (r: StatsScreen)
        ensures
            r.ms() == ((0u64, true)),
            r.mas() == ((0u64, true)),
            r.dist() == ((0u32, true)),
            r.time_v() == ((None::<GpsTime>, true)),
    {
        StatsScreen {
            max_speed: Updateable::new(0),
            max_avg_speed: Updateable::new(0),
            distance_nm: Updateable::new(0),
            time: Updateable::new(None),
        }
    }

    /// Draws the rules, the labels, and every changed value, consuming the
    /// change markers.
    #[verifier::rlimit(60)]
    pub fn render(&mut self, layout: &Layout, ops: &mut Vec<DrawOp>)
        ensures
            final(ops)@ == old(ops)@ + old(self).stats_ops(),
            final(self).ms() == ((old(self).ms().0, false)),
            final(self).mas() == ((old(self).mas().0, false)),
            final(self).dist() == ((old(self).dist().0, false)),
            final(self).time_v() == ((old(self).time_v().0, false)),
    {
        let ghost ops0 = ops@;
        ops.push(DrawOp::Line { x0: 0, y0: 120, x1: 400, y1: 120 });
        ops.push(DrawOp::Line { x0: 200, y0: 0, x1: 200, y1: 240 });

        let label: Vec<u8> = vec![109u8, 97, 120, 32, 107, 116];
        layout.write_text(ops, Point { x: 10, y: 5 }, label.as_slice());
        Self::render_value_dd_d(layout, ops, Point { x: 0, y: 35 }, &mut self.max_speed);

        let label2: Vec<u8> = vec![109u8, 97, 120, 32, 107, 116, 32, 97, 118, 103, 49, 48];
        layout.write_text(ops, Point { x: 215, y: 5 }, label2.as_slice());
        Self::render_value_dd_d(layout, ops, Point { x: 205, y: 35 }, &mut self.max_avg_speed);

        let label3: Vec<u8> = vec![100u8, 105, 115, 116, 32, 110, 109];
        layout.write_text(ops, Point { x: 10, y: 125 }, label3.as_slice());
        Self::render_dist_dd_d(layout, ops, Point { x: 0, y: 155 }, &mut self.distance_nm);

        let label4: Vec<u8> = vec![116u8, 105, 109, 101];
        layout.write_text(ops, Point { x: 215, y: 125 }, label4.as_slice());
        Self::render_time(layout, ops, Point { x: 205, y: 155 }, &mut self.time);

        proof {
            assert(ops@ =~= ops0 + old(self).stats_ops());
        }
    }

    /// Draws the fix time if it changed, as `hh:mm:ss` under its label.
    fn render_time(
        layout: &Layout,
        ops: &mut Vec<DrawOp>,
        loc: Point,
        value: &mut Updateable<Option<GpsTime>>,
    )
        requires
            loc == (Point { x: 205, y: 155 }),
        ensures
            final(ops)@ == old(ops)@ + (if old(value).is_updated() {
                crate::layout::text_ops(
                    FontId::Med,
                    Point { x: 245, y: 175 },
                    time_text(old(value).spec_value()),
                )
            } else {
                Seq::empty()
            }),
            final(value).spec_value() == old(value).spec_value(),
            !final(value).is_updated(),
    {
        let ghost ops0 = ops@;
        match value.updated() {
            Some(otime) => {
                let text = format_time(&otime);
                layout.write_text(ops, Point { x: loc.x + 40, y: loc.y + 20 }, text.as_slice());
            },
            None => {},
        }
        proof {
            assert(final(ops)@ =~= ops0 + (if old(value).is_updated() {
                crate::layout::text_ops(
                    FontId::Med,
                    Point { x: 245, y: 175 },
                    time_text(old(value).spec_value()),
                )
            } else {
                Seq::empty()
            }));
        }
    }

    /// Draws a speed value if it changed, as `dd.d` knots.
    fn render_value_dd_d(
        layout: &Layout,
        ops: &mut Vec<DrawOp>,
        loc: Point,
        value: &mut Updateable<u64>,
    )
        requires
            crate::layout::kerned_room(loc, 8),
        ensures
            final(ops)@ == old(ops)@ + (if old(value).is_updated() {
                crate::layout::kerned_ops(
                    FontId::MedDigits,
                    loc,
                    clip8(dd_d_text(speed_display(old(value).spec_value() as nat))),
                )
            } else {
                Seq::empty()
            }),
            final(value).spec_value() == old(value).spec_value(),
            !final(value).is_updated(),
    {
        match value.updated() {
            Some(v) => {
                let deci = round_div_100(v);
                let text = format_dd_d(deci);
                layout.write_med_text(ops, loc, text.as_slice());
            },
            None => {},
        }
    }

    /// Draws the distance if it changed, as `dd.d` nautical miles.
    fn render_dist_dd_d(
        layout: &Layout,
        ops: &mut Vec<DrawOp>,
        loc: Point,
        value: &mut Updateable<u32>,
    )
        requires
            crate::layout::kerned_room(loc, 8),
        ensures
            final(ops)@ == old(ops)@ + (if old(value).is_updated() {
                crate::layout::kerned_ops(
                    FontId::MedDigits,
                    loc,
                    clip8(dd_d_text(old(value).spec_value() as nat)),
                )
            } else {
                Seq::empty()
            }),
            final(value).spec_value() == old(value).spec_value(),
            !final(value).is_updated(),
    {
        match value.updated() {
            Some(v) => {
                let text = format_dd_d(v as u64);
                layout.write_med_text(ops, loc, text.as_slice());
            },
            None => {},
        }
    }

    /// Takes the maxima, the session distance and the fix time from a
    /// snapshot, each through its change tracker.
    pub fn update(&mut self, update: &Update)
        ensures
            *update matches Update::Gps(g) ==> {
                &&& final(self).ms() == upd_set(old(self).ms(), g.max_speed)
                &&& final(self).mas() == upd_set(old(self).mas(), g.max_avg_speed)
                &&& final(self).dist() == upd_set(
                    old(self).dist(),
                    dist_deci_nm(g.distance_m as nat) as u32,
                )
                &&& final(self).time_v() == upd_set_time(old(self).time_v(), g.time)
            },
            *update matches Update::Vbat(mv) ==> *final(self) == *old(self),
    {
        match update {
            Update::Gps(gps) => {
                self.max_speed.set(gps.max_speed);
                self.max_avg_speed.set(gps.max_avg_speed);
                proof {
                    assert((gps.distance_m as nat) * 10 + 926 < u64::MAX) by (nonlinear_arith)
                        requires
                            gps.distance_m <= u32::MAX,
                    ;
                    assert(dist_deci_nm(gps.distance_m as nat) <= u32::MAX) by (nonlinear_arith)
                        requires
                            gps.distance_m <= u32::MAX,
                    ;
                }
                let deci_nm = (((gps.distance_m as u64) * 10 + 926) / 1852) as u32;
                self.distance_nm.set(deci_nm);
                self.time.set(gps.time);
            },
            _ => {},
        }
    }
}

/// A change-tracked fix time after `set`: Option equality is by contents.
pub open spec fn upd_set_time(
    old: (Option<GpsTime>, bool),
    v: Option<GpsTime>,
) -> (Option<GpsTime>, bool) {
    if old.0 == v {
        old
    } else {
        (v, true)
    }
}

/// `prefix` then a value in tenths as `d.d` (all integer digits kept).
pub open spec fn tenths_text(prefix: Seq<u8>, v: nat) -> Seq<u8> {
    prefix + dec_rep(v / 10) + seq![46u8] + dec_rep(v % 10)
}

/// Formats `prefix` then `v` tenths as `d.d`.
pub fn format_tenths(prefix: &[u8], v: u64) -> (r: Vec<u8>)
    requires
        prefix@.len() <= 8,
    ensures
        r@ == tenths_text(prefix@, v as nat),
        r@.len() <= 30,
{
    let mut w = U8Writer::new(40);
    w.write_str(prefix);
    let ghost p1 = prefix@;
    proof {
        assert(w.written() =~= p1);
        crate::u8writer::lemma_digits_len_u64((v / 10) as nat);
    }
    w.write_uint(v / 10);
    let ghost p2 = p1 + dec_rep((v / 10) as nat);
    proof {
        assert(w.written() =~= p2);
    }
    let _ = w.write_char(46);
    let ghost p3 = p2 + seq![46u8];
    proof {
        assert(w.written() =~= p3);
        assert(crate::u8writer::pow10(1) == 10) by {
            assert(crate::u8writer::pow10(0) == 1);
        }
        crate::u8writer::lemma_digits_len((v % 10) as nat, 1);
    }
    w.write_uint(v % 10);
    let r = w.as_str();
    proof {
        assert(r@ =~= tenths_text(prefix@, v as nat));
    }
    r
}

/// `prefix` then a signed 1e-7-degree coordinate with six decimals.
pub open spec fn coord_text(prefix: Seq<u8>, raw: int) -> Seq<u8> {
    let mag = if raw < 0 {
        -raw
    } else {
        raw
    };
    prefix + (if raw < 0 {
        seq![45u8]
    } else {
        Seq::<u8>::empty()
    }) + dec_rep((mag / 10000000) as nat) + seq![46u8] + crate::u8writer::padded_num(
        6,
        48,
        ((mag % 10000000) / 10) as nat,
    )
}

/// Formats `prefix` then a latitude or longitude in 1e-7 degree units as
/// signed degrees with six decimals.
pub fn format_coord(prefix: &[u8], raw: i32) -> (r: Vec<u8>)
    requires
        prefix@.len() <= 8,
    ensures
        r@ == coord_text(prefix@, raw as int),
        r@.len() <= 30,
{
    let mut w = U8Writer::new(40);
    w.write_str(prefix);
    let ghost p1 = prefix@;
    proof {
        assert(w.written() =~= p1);
    }
    if raw < 0 {
        let _ = w.write_char(45);
    }
    let mag: u32 = if raw < 0 {
        ((-(raw as i64)) as u64) as u32
    } else {
        raw as u32
    };
    let ghost p2 = p1 + (if raw < 0 {
        seq![45u8]
    } else {
        Seq::<u8>::empty()
    });
    proof {
        assert(w.written() =~= p2);
        assert(mag == (if raw < 0 {
            -(raw as int)
        } else {
            raw as int
        }));
        assert(crate::u8writer::pow10(3) == 1000) by {
            assert(crate::u8writer::pow10(0) == 1);
            assert(crate::u8writer::pow10(1) == 10);
            assert(crate::u8writer::pow10(2) == 100);
        }
        crate::u8writer::lemma_digits_len((mag / 10000000) as nat, 3);
    }
    w.write_uint((mag / 10000000) as u64);
    let ghost p3 = p2 + dec_rep((mag as int / 10000000) as nat);
    proof {
        assert(w.written() =~= p3);
    }
    let _ = w.write_char(46);
    let ghost p4 = p3 + seq![46u8];
    proof {
        assert(w.written() =~= p4);
        assert(crate::u8writer::pow10(6) == 1000000) by {
            assert(crate::u8writer::pow10(0) == 1);
            assert(crate::u8writer::pow10(1) == 10);
            assert(crate::u8writer::pow10(2) == 100);
            assert(crate::u8writer::pow10(3) == 1000);
            assert(crate::u8writer::pow10(4) == 10000);
            assert(crate::u8writer::pow10(5) == 100000);
        }
        crate::u8writer::lemma_digits_len(((mag % 10000000) / 10) as nat, 6);
    }
    let _ = w.write_number(6, 48, (mag % 10000000) / 10);
    let r = w.as_str();
    proof {
        assert(r@ =~= coord_text(prefix@, raw as int));
    }
    r
}

/// `prefix` then a dash: the reading is absent.
pub open spec fn dash_text(prefix: Seq<u8>) -> Seq<u8> {
    prefix + seq![45u8]
}

/// The battery voltage line: `Vbat: ` then millivolts and `mV`.
pub open spec fn vbat_text(mv: nat) -> Seq<u8> {
    seq![86u8, 98u8, 97u8, 116u8, 58u8, 32u8] + dec_rep(mv) + seq![109u8, 86u8]
}

/// Formats the battery voltage line.
pub fn format_vbat(mv: u16) -> (r: Vec<u8>)
    ensures
        r@ == vbat_text(mv as nat),
        r@.len() <= 30,
{
    let mut w = U8Writer::new(40);
    let prefix: Vec<u8> = vec![86u8, 98, 97, 116, 58, 32];
    w.write_str(prefix.as_slice());
    let ghost p1 = seq![86u8, 98u8, 97u8, 116u8, 58u8, 32u8];
    proof {
        assert(prefix@ =~= p1);
        assert(w.written() =~= p1);
        crate::u8writer::lemma_digits_len_u64(mv as nat);
    }
    w.write_uint(mv as u64);
    let ghost p2 = p1 + dec_rep(mv as nat);
    proof {
        assert(w.written() =~= p2);
    }
    let suffix: Vec<u8> = vec![109u8, 86];
    w.write_str(suffix.as_slice());
    let r = w.as_str();
    proof {
        assert(r@ =~= vbat_text(mv as nat));
    }
    r
}

/// Writes formatted text into an 18-cell field, diffing cell by cell.
pub fn set_field18(field: &mut DisplayField<18>, text: &[u8])
    requires
        old(field).wf(),
    ensures
        final(field).wf(),
        final(field).chars() == pad_clip(text@, 18),
        final(field).dirty_mask() == diff_dirty(
            old(field).chars(),
            old(field).dirty_mask(),
            pad_clip(text@, 18),
        ),
{
    let mut w = U8Writer::new(18);
    w.write_str(text);
    w.fill(32);
    proof {
        assert(w.bytes() =~= pad_clip(text@, 18));
    }
    field.update_from(w.buffer().as_slice());
}

pub open spec fn prefix_hdop() -> Seq<u8> {
    seq![72u8, 100u8, 111u8, 112u8, 58u8, 32u8]
}

pub open spec fn prefix_lat() -> Seq<u8> {
    seq![76u8, 97u8, 116u8, 32u8, 58u8, 32u8]
}

pub open spec fn prefix_spd() -> Seq<u8> {
    seq![83u8, 112u8, 100u8, 32u8, 58u8, 32u8]
}

pub open spec fn prefix_max() -> Seq<u8> {
    seq![77u8, 97u8, 120u8, 32u8, 58u8, 32u8]
}

/// The raw-telemetry page: dilution, position, speeds and battery voltage
/// as labelled text lines, over the shared status line.
pub struct MiscScreen {
    status_line: StatusLine,
    hdop_field: DisplayField<18>,
    lat_field: DisplayField<18>,
    lng_field: DisplayField<18>,
    speed_field: DisplayField<18>,
    max_speed_field: DisplayField<18>,
    vbat_field: DisplayField<18>,
}

impl MiscScreen {
    pub closed spec fn status(&self) -> StatusLine {
        self.status_line
    }

    pub closed spec fn hdop(&self) -> (Seq<u8>, Seq<bool>) {
        (self.hdop_field.chars(), self.hdop_field.dirty_mask())
    }

    pub closed spec fn lat(&self) -> (Seq<u8>, Seq<bool>) {
        (self.lat_field.chars(), self.lat_field.dirty_mask())
    }

    pub closed spec fn lng(&self) -> (Seq<u8>, Seq<bool>) {
        (self.lng_field.chars(), self.lng_field.dirty_mask())
    }

    pub closed spec fn spd(&self) -> (Seq<u8>, Seq<bool>) {
        (self.speed_field.chars(), self.speed_field.dirty_mask())
    }

    pub closed spec fn max(&self) -> (Seq<u8>, Seq<bool>) {
        (self.max_speed_field.chars(), self.max_speed_field.dirty_mask())
    }

    pub closed spec fn vbat(&self) -> (Seq<u8>, Seq<bool>) {
        (self.vbat_field.chars(), self.vbat_field.dirty_mask())
    }

    pub open spec fn wf(&self) -> bool {
        &&& self.status().wf()
        &&& self.hdop().0.len() == 18 && self.hdop().1.len() == 18
        &&& self.lat().0.len() == 18 && self.lat().1.len() == 18
        &&& self.lng().0.len() == 18 && self.lng().1.len() == 18
        &&& self.spd().0.len() == 18 && self.spd().1.len() == 18
        &&& self.max().0.len() == 18 && self.max().1.len() == 18
        &&& self.vbat().0.len() == 18 && self.vbat().1.len() == 18
    }

    /// The draw operations one render issues: the status line and each
    /// line's dirty cells, top to bottom.
    pub open spec fn misc_ops(&self) -> Seq<DrawOp> {
        self.status().render_ops() + field_ops(
            FontId::Med,
            Point { x: 32, y: 72 },
            self.hdop().0,
            self.hdop().1,
        ) + field_ops(FontId::Med, Point { x: 32, y: 101 }, self.lat().0, self.lat().1)
            + field_ops(FontId::Med, Point { x: 32, y: 130 }, self.lng().0, self.lng().1)
            + field_ops(FontId::Med, Point { x: 32, y: 159 }, self.spd().0, self.spd().1)
            + field_ops(FontId::Med, Point { x: 32, y: 188 }, self.max().0, self.max().1)
            + field_ops(FontId::Med, Point { x: 32, y: 217 }, self.vbat().0, self.vbat().1)
    }

    pub fn new() -> (r: MiscScreen)
        ensures
            r.wf(),
            r.status().sats_chars() == blank8(),
            r.status().sats_dirty() == Seq::new(8, |i: int| true),
            r.status().label_chars() == pad_clip(Seq::empty(), 4),
            r.status().label_dirty() == Seq::new(4, |i: int| true),
            r.status().bat() is None,
            !r.status().blink(),
            r.hdop().0 == pad_clip(seq![72u8, 100u8, 111u8, 112u8, 58u8], 18),
            r.lat().0 == pad_clip(seq![76u8, 97u8, 116u8, 32u8, 58u8], 18),
            r.lng().0 == pad_clip(seq![76u8, 110u8, 103u8, 32u8, 58u8], 18),
            r.spd().0 == pad_clip(seq![83u8, 112u8, 100u8, 32u8, 58u8], 18),
            r.max().0 == pad_clip(seq![77u8, 97u8, 120u8, 32u8, 58u8], 18),
            r.vbat().0 == pad_clip(seq![86u8, 98u8, 97u8, 116u8, 58u8], 18),
            r.hdop().1 == Seq::new(18, |i: int| true),
            r.lat().1 == Seq::new(18, |i: int| true),
            r.lng().1 == Seq::new(18, |i: int| true),
            r.spd().1 == Seq::new(18, |i: int| true),
            r.max().1 == Seq::new(18, |i: int| true),
            r.vbat().1 == Seq::new(18, |i: int| true),
    {
        let empty_label: Vec<u8> = Vec::new();
        let hdop: Vec<u8> = vec![72u8, 100, 111, 112, 58];
        let lat: Vec<u8> = vec![76u8, 97, 116, 32, 58];
        let lng: Vec<u8> = vec![76u8, 110, 103, 32, 58];
        let spd: Vec<u8> = vec![83u8, 112, 100, 32, 58];
        let max: Vec<u8> = vec![77u8, 97, 120, 32, 58];
        let vbat: Vec<u8> = vec![86u8, 98, 97, 116, 58];
        let r = MiscScreen {
            status_line: StatusLine::new(empty_label.as_slice()),
            hdop_field: DisplayField::from_str(hdop.as_slice()),
            lat_field: DisplayField::from_str(lat.as_slice()),
            lng_field: DisplayField::from_str(lng.as_slice()),
            speed_field: DisplayField::from_str(spd.as_slice()),
            max_speed_field: DisplayField::from_str(max.as_slice()),
            vbat_field: DisplayField::from_str(vbat.as_slice()),
        };
        proof {
            assert(r.status().label_chars() =~= pad_clip(Seq::empty(), 4));
            assert(r.hdop().0 =~= pad_clip(seq![72u8, 100u8, 111u8, 112u8, 58u8], 18));
            assert(r.lat().0 =~= pad_clip(seq![76u8, 97u8, 116u8, 32u8, 58u8], 18));
            assert(r.lng().0 =~= pad_clip(seq![76u8, 110u8, 103u8, 32u8, 58u8], 18));
            assert(r.spd().0 =~= pad_clip(seq![83u8, 112u8, 100u8, 32u8, 58u8], 18));
            assert(r.max().0 =~= pad_clip(seq![77u8, 97u8, 120u8, 32u8, 58u8], 18));
            assert(r.vbat().0 =~= pad_clip(seq![86u8, 98u8, 97u8, 116u8, 58u8], 18));
        }
        r
    }

    /// Draws the status line and every changed cell of the six lines,
    /// marking them clean.
    #[verifier::rlimit(60)]
    pub fn render(&mut self, layout: &Layout, ops: &mut Vec<DrawOp>)
        requires
            old(self).wf(),
        ensures
            final(self).wf(),
            final(ops)@ == old(ops)@ + old(self).misc_ops(),
            final(self).hdop().0 == old(self).hdop().0,
            final(self).lat().0 == old(self).lat().0,
            final(self).lng().0 == old(self).lng().0,
            final(self).spd().0 == old(self).spd().0,
            final(self).max().0 == old(self).max().0,
            final(self).vbat().0 == old(self).vbat().0,
            final(self).hdop().1 == Seq::new(18, |i: int| false),
            final(self).lat().1 == Seq::new(18, |i: int| false),
            final(self).lng().1 == Seq::new(18, |i: int| false),
            final(self).spd().1 == Seq::new(18, |i: int| false),
            final(self).max().1 == Seq::new(18, |i: int| false),
            final(self).vbat().1 == Seq::new(18, |i: int| false),
            final(self).status().sats_chars() == old(self).status().sats_chars(),
            final(self).status().sats_dirty() == Seq::new(8, |i: int| false),
            final(self).status().label_chars() == old(self).status().label_chars(),
            final(self).status().label_dirty() == Seq::new(4, |i: int| false),
            final(self).status().bat() == old(self).status().bat(),
            final(self).status().blink() == old(self).status().blink(),
    {
        let ghost ops0 = ops@;
        self.status_line.render(layout, ops);

        layout.render_field(ops, Point { x: 32, y: 72 }, &mut self.hdop_field);
        layout.render_field(ops, Point { x: 32, y: 101 }, &mut self.lat_field);
        layout.render_field(ops, Point { x: 32, y: 130 }, &mut self.lng_field);
        layout.render_field(ops, Point { x: 32, y: 159 }, &mut self.speed_field);
        layout.render_field(ops, Point { x: 32, y: 188 }, &mut self.max_speed_field);
        layout.render_field(ops, Point { x: 32, y: 217 }, &mut self.vbat_field);

        proof {
            assert(ops@ =~= ops0 + old(self).misc_ops());
        }
    }

    pub fn update(&mut self, update: &Update)
        requires
            old(self).wf(),
        ensures
            final(self).wf(),
            *update matches Update::Gps(g) ==> misc_gps_written(*old(self), *final(self), g),
            *update matches Update::Vbat(mv) ==> misc_vbat_written(*old(self), *final(self), mv),
    {
        self.status_line.update(update);
        match update {
            Update::Gps(gps) => self.update_gps(gps),
            Update::Vbat(mv) => self.update_vbat(*mv),
        }
    }

    fn update_gps(&mut self, gps: &GpsData)
        requires
            old(self).wf(),
        ensures
            final(self).wf(),
            updated_gps(old(self).status(), final(self).status(), *gps),
            misc_gps_fields_written(*old(self), *final(self), *gps),
    {
        self.status_line.update_gps(gps);
        let pspd: Vec<u8> = vec![83u8, 112, 100, 32, 58, 32];
        proof {
            assert(pspd@ =~= prefix_spd());
        }
        let spd_text = format_tenths(pspd.as_slice(), round_div_100(gps.speed));
        set_field18(&mut self.speed_field, spd_text.as_slice());

        let pmax: Vec<u8> = vec![77u8, 97, 120, 32, 58, 32];
        proof {
            assert(pmax@ =~= prefix_max());
        }
        let max_text = format_tenths(pmax.as_slice(), round_div_100(gps.max_speed));
        set_field18(&mut self.max_speed_field, max_text.as_slice());

        let phdop: Vec<u8> = vec![72u8, 100, 111, 112, 58, 32];
        proof {
            assert(phdop@ =~= prefix_hdop());
        }
        match gps.hdop {
            Some(hdop) => {
                let t = format_tenths(phdop.as_slice(), (hdop / 10) as u64);
                set_field18(&mut self.hdop_field, t.as_slice());
            },
            None => {
                let mut t = phdop;
                t.push(45);
                proof {
                    assert(t@ =~= dash_text(prefix_hdop()));
                }
                set_field18(&mut self.hdop_field, t.as_slice());
            },
        }
        let plat: Vec<u8> = vec![76u8, 97, 116, 32, 58, 32];
        proof {
            assert(plat@ =~= prefix_lat());
        }
        match gps.latitude {
            Some(latitude) => {
                let t = format_coord(plat.as_slice(), latitude);
                set_field18(&mut self.lat_field, t.as_slice());
            },
            None => {
                let mut t = plat;
                t.push(45);
                proof {
                    assert(t@ =~= dash_text(prefix_lat()));
                }
                set_field18(&mut self.lat_field, t.as_slice());
            },
        }
        let plat2: Vec<u8> = vec![76u8, 97, 116, 32, 58, 32];
        proof {
            assert(plat2@ =~= prefix_lat());
        }
        match gps.longitude {
            Some(longitude) => {
                let t = format_coord(plat2.as_slice(), longitude);
                set_field18(&mut self.lng_field, t.as_slice());
            },
            None => {
                let mut t = plat2;
                t.push(45);
                proof {
                    assert(t@ =~= dash_text(prefix_lat()));
                }
                set_field18(&mut self.lng_field, t.as_slice());
            },
        }
    }

    fn update_vbat(&mut self, mv: u16)
        requires
            old(self).wf(),
        ensures
            final(self).wf(),
            updated_vbat(old(self).status(), final(self).status(), mv),
            final(self).vbat().0 == pad_clip(vbat_text(mv as nat), 18),
            final(self).vbat().1 == diff_dirty(
                old(self).vbat().0,
                old(self).vbat().1,
                pad_clip(vbat_text(mv as nat), 18),
            ),
            final(self).hdop() == old(self).hdop(),
            final(self).lat() == old(self).lat(),
            final(self).lng() == old(self).lng(),
            final(self).spd() == old(self).spd(),
            final(self).max() == old(self).max(),
    {
        self.status_line.update_vbat(mv);
        let t = format_vbat(mv);
        set_field18(&mut self.vbat_field, t.as_slice());
    }
}

/// The telemetry lines a snapshot writes: speed and maximum as `d.d` knots,
/// dilution and position when present (a dash when not), each diffed into
/// its line. Both position lines carry the `Lat :` label; the longitude
/// line never got one of its own.
pub open spec fn misc_gps_fields_written(old: MiscScreen, new: MiscScreen, g: GpsData) -> bool {
    let spd_t = pad_clip(tenths_text(prefix_spd(), speed_display(g.speed as nat)), 18);
    let max_t = pad_clip(tenths_text(prefix_max(), speed_display(g.max_speed as nat)), 18);
    let hdop_t = pad_clip(
        match g.hdop {
            Some(h) => tenths_text(prefix_hdop(), (h / 10) as nat),
            None => dash_text(prefix_hdop()),
        },
        18,
    );
    let lat_t = pad_clip(
        match g.latitude {
            Some(raw) => coord_text(prefix_lat(), raw as int),
            None => dash_text(prefix_lat()),
        },
        18,
    );
    let lng_t = pad_clip(
        match g.longitude {
            Some(raw) => coord_text(prefix_lat(), raw as int),
            None => dash_text(prefix_lat()),
        },
        18,
    );
    &&& new.spd() == ((spd_t, diff_dirty(old.spd().0, old.spd().1, spd_t)))
    &&& new.max() == ((max_t, diff_dirty(old.max().0, old.max().1, max_t)))
    &&& new.hdop() == ((hdop_t, diff_dirty(old.hdop().0, old.hdop().1, hdop_t)))
    &&& new.lat() == ((lat_t, diff_dirty(old.lat().0, old.lat().1, lat_t)))
    &&& new.lng() == ((lng_t, diff_dirty(old.lng().0, old.lng().1, lng_t)))
    &&& new.vbat() == old.vbat()
}

/// A full snapshot update of the telemetry page: the status line is
/// refreshed twice (dispatcher and handler), the lines once.
pub open spec fn misc_gps_written(old: MiscScreen, new: MiscScreen, g: GpsData) -> bool {
    &&& updated_gps_twice(old.status(), new.status(), g)
    &&& misc_gps_fields_written(old, new, g)
}

/// A battery update of the telemetry page: the gauge percentage and the
/// voltage line.
pub open spec fn misc_vbat_written(old: MiscScreen, new: MiscScreen, mv: u16) -> bool {
    let vbat_t = pad_clip(vbat_text(mv as nat), 18);
    &&& updated_vbat(old.status(), new.status(), mv)
    &&& new.vbat() == ((vbat_t, diff_dirty(old.vbat().0, old.vbat().1, vbat_t)))
    &&& new.hdop() == old.hdop()
    &&& new.lat() == old.lat()
    &&& new.lng() == old.lng()
    &&& new.spd() == old.spd()
    &&& new.max() == old.max()
}

/// The four pages, in their fixed cycling order.
#[derive(Clone, Copy, PartialEq, Eq, Structural, Debug)]
pub enum PageId {
    Speed,
    Stats,
    Cog,
    Misc,
}

/// The page after one page-turn event.
pub open spec fn next_page_id(p: PageId) -> PageId {
    match p {
        PageId::Speed => PageId::Stats,
        PageId::Stats => PageId::Cog,
        PageId::Cog => PageId::Misc,
        PageId::Misc => PageId::Speed,
    }
}

/// Four page turns return to the page they started from.
pub proof fn lemma_page_cycle(p: PageId)
    ensures
        next_page_id(next_page_id(next_page_id(next_page_id(p)))) == p,
{
}

enum AnyScreen {
    Speed(SpeedScreen),
    Stats(StatsScreen),
    Cog(CogScreen),
    Misc(MiscScreen),
}

/// The page selector: exactly one live screen at a time, plus the shared
/// layout. Turning the page destroys the old screen's state and builds the
/// next one fresh, so no stale per-page state survives a page change.
pub struct Screens {
    layout: Layout,
    screens: AnyScreen,
}

/// The operations a fresh status line issues on its first render: every
/// cell of both fields, battery not yet known.
pub open spec fn fresh_status_ops(label4: Seq<u8>) -> Seq<DrawOp> {
    field_ops(FontId::Med, Point { x: 32, y: 14 }, blank8(), Seq::new(8, |i: int| true))
        + field_ops(FontId::Med, Point { x: 464, y: 14 }, label4, Seq::new(4, |i: int| true))
}

/// The operations a freshly built page issues on its first render: every
/// field starts dirty by construction, so the page is painted in full.
pub open spec fn fresh_page_ops(p: PageId) -> Seq<DrawOp> {
    match p {
        PageId::Speed => fresh_status_ops(pad_clip(seq![107u8, 116u8], 4)) + seq![
            DrawOp::Glyph { font: FontId::BigDigits, x: 4, y: 68, ch: 32 },
            DrawOp::Glyph { font: FontId::BigDigits, x: 124, y: 68, ch: 48 },
            crate::layout::dot_op(FontId::BigDigits, Point { x: 244, y: 68 }),
            DrawOp::Glyph { font: FontId::BigDigits, x: 266, y: 68, ch: 48 },
        ],
        PageId::Stats => seq![
            DrawOp::Line { x0: 0, y0: 120, x1: 400, y1: 120 },
            DrawOp::Line { x0: 200, y0: 0, x1: 200, y1: 240 },
        ] + crate::layout::text_ops(FontId::Med, Point { x: 10, y: 5 }, label_max_kt())
            + crate::layout::kerned_ops(
            FontId::MedDigits,
            Point { x: 0, y: 35 },
            clip8(dd_d_text(0)),
        ) + crate::layout::text_ops(FontId::Med, Point { x: 215, y: 5 }, label_max_kt_avg())
            + crate::layout::kerned_ops(
            FontId::MedDigits,
            Point { x: 205, y: 35 },
            clip8(dd_d_text(0)),
        ) + crate::layout::text_ops(FontId::Med, Point { x: 10, y: 125 }, label_dist_nm())
            + crate::layout::kerned_ops(
            FontId::MedDigits,
            Point { x: 0, y: 155 },
            clip8(dd_d_text(0)),
        ) + crate::layout::text_ops(FontId::Med, Point { x: 215, y: 125 }, label_time())
            + crate::layout::text_ops(FontId::Med, Point { x: 245, y: 175 }, time_text(None)),
        PageId::Cog => fresh_status_ops(pad_clip(seq![67u8, 79u8, 71u8], 4)) + seq![
            DrawOp::Glyph { font: FontId::BigDigits, x: 4, y: 68, ch: 45 },
            DrawOp::Glyph { font: FontId::BigDigits, x: 124, y: 68, ch: 45 },
            DrawOp::Glyph { font: FontId::BigDigits, x: 244, y: 68, ch: 45 },
        ],
        PageId::Misc => fresh_status_ops(pad_clip(Seq::empty(), 4)) + field_ops(
            FontId::Med,
            Point { x: 32, y: 72 },
            pad_clip(seq![72u8, 100u8, 111u8, 112u8, 58u8], 18),
            Seq::new(18, |i: int| true),
        ) + field_ops(
            FontId::Med,
            Point { x: 32, y: 101 },
            pad_clip(seq![76u8, 97u8, 116u8, 32u8, 58u8], 18),
            Seq::new(18, |i: int| true),
        ) + field_ops(
            FontId::Med,
            Point { x: 32, y: 130 },
            pad_clip(seq![76u8, 110u8, 103u8, 32u8, 58u8], 18),
            Seq::new(18, |i: int| true),
        ) + field_ops(
            FontId::Med,
            Point { x: 32, y: 159 },
            pad_clip(seq![83u8, 112u8, 100u8, 32u8, 58u8], 18),
            Seq::new(18, |i: int| true),
        ) + field_ops(
            FontId::Med,
            Point { x: 32, y: 188 },
            pad_clip(seq![77u8, 97u8, 120u8, 32u8, 58u8], 18),
            Seq::new(18, |i: int| true),
        ) + field_ops(
            FontId::Med,
            Point { x: 32, y: 217 },
            pad_clip(seq![86u8, 98u8, 97u8, 116u8, 58u8], 18),
            Seq::new(18, |i: int| true),
        ),
    }
}

impl Screens {
    /// Which page is live.
    pub closed spec fn page(&self) -> PageId {
        match self.screens {
            AnyScreen::Speed(_) => PageId::Speed,
            AnyScreen::Stats(_) => PageId::Stats,
            AnyScreen::Cog(_) => PageId::Cog,
            AnyScreen::Misc(_) => PageId::Misc,
        }
    }

    pub closed spec fn speed(&self) -> SpeedScreen {
        match self.screens {
            AnyScreen::Speed(s) => s,
            _ => vstd::pervasive::arbitrary(),
        }
    }

    pub closed spec fn stats(&self) -> StatsScreen {
        match self.screens {
            AnyScreen::Stats(s) => s,
            _ => vstd::pervasive::arbitrary(),
        }
    }

    pub closed spec fn cog(&self) -> CogScreen {
        match self.screens {
            AnyScreen::Cog(s) => s,
            _ => vstd::pervasive::arbitrary(),
        }
    }

    pub closed spec fn misc(&self) -> MiscScreen {
        match self.screens {
            AnyScreen::Misc(s) => s,
            _ => vstd::pervasive::arbitrary(),
        }
    }

    pub open spec fn wf(&self) -> bool {
        match self.page() {
            PageId::Speed => self.speed().wf(),
            PageId::Stats => true,
            PageId::Cog => self.cog().wf(),
            PageId::Misc => self.misc().wf(),
        }
    }

    /// The operations the live page would issue on its next render.
    pub open spec fn screen_ops(&self) -> Seq<DrawOp> {
        match self.page() {
            PageId::Speed => self.speed().status().render_ops() + self.speed().speed_ops(),
            PageId::Stats => self.stats().stats_ops(),
            PageId::Cog => self.cog().status().render_ops() + self.cog().cog_ops(),
            PageId::Misc => self.misc().misc_ops(),
        }
    }

    /// Which page is live, as a value.
    pub fn current_page(&self) -> (r: PageId)
        ensures
            r == self.page(),
    {
        match &self.screens {
            AnyScreen::Speed(_) => PageId::Speed,
            AnyScreen::Stats(_) => PageId::Stats,
            AnyScreen::Cog(_) => PageId::Cog,
            AnyScreen::Misc(_) => PageId::Misc,
        }
    }

    /// Starts on the speed page, every field dirty.
    pub fn new() -> (r: Screens)
        ensures
            r.wf(),
            r.page() == PageId::Speed,
            r.speed().d0() == ((0u8, true)),
            r.speed().d1() == ((0u8, true)),
            r.speed().d2() == ((0u8, true)),
            r.speed().status().sats_chars() == blank8(),
            r.speed().status().sats_dirty() == Seq::new(8, |i: int| true),
            r.speed().status().label_chars() == pad_clip(seq![107u8, 116u8], 4),
            r.speed().status().label_dirty() == Seq::new(4, |i: int| true),
            r.speed().status().bat() is None,
            !r.speed().status().blink(),
            r.screen_ops() == fresh_page_ops(PageId::Speed),
    {
        let fresh = SpeedScreen::new();
        let r = Screens { layout: Layout::new(), screens: AnyScreen::Speed(fresh) };
        proof {
            assert(r.speed() == fresh);
            assert(r.screen_ops() =~= fresh_page_ops(PageId::Speed));
        }
        r
    }

    /// Turns to the next page in the fixed cycle: the old page's state is
    /// dropped, the display is cleared, and the fresh page is painted in
    /// full (every field of a fresh page starts dirty).
    pub fn next_page(&mut self, ops: &mut Vec<DrawOp>)
        requires
            old(self).wf(),
        ensures
            final(self).wf(),
            final(self).page() == next_page_id(old(self).page()),
            final(ops)@ == old(ops)@ + seq![
                DrawOp::Rect { x: 0, y: 0, width: 480, height: 320, fill_on: false },
            ] + fresh_page_ops(next_page_id(old(self).page())),
            fresh_page_rendered(*final(self)),
    {
        let ghost ops0 = ops@;
        match &self.screens {
            AnyScreen::Speed(_) => {
                self.screens = AnyScreen::Stats(StatsScreen::new());
            },
            AnyScreen::Stats(_) => {
                self.screens = AnyScreen::Cog(CogScreen::new());
            },
            AnyScreen::Cog(_) => {
                self.screens = AnyScreen::Misc(MiscScreen::new());
            },
            AnyScreen::Misc(_) => {
                self.screens = AnyScreen::Speed(SpeedScreen::new());
            },
        }
        proof {
            assert(self.screen_ops() =~= fresh_page_ops(self.page()));
        }
        let layout = self.layout;
        layout.clear(ops);
        self.render(ops);
        proof {
            assert(ops@ =~= ops0 + seq![
                DrawOp::Rect { x: 0, y: 0, width: 480, height: 320, fill_on: false },
            ] + fresh_page_ops(next_page_id(old(self).page())));
        }
    }

    /// Renders the live page: its draw operations are appended and its
    /// change markers and dirty cells are consumed.
    pub fn render(&mut self, ops: &mut Vec<DrawOp>)
        requires
            old(self).wf(),
        ensures
            final(self).wf(),
            final(self).page() == old(self).page(),
            final(ops)@ == old(ops)@ + old(self).screen_ops(),
            screens_rendered(*old(self), *final(self)),
    {
        let layout = self.layout;
        match &mut self.screens {
            AnyScreen::Speed(s) => s.render(&layout, ops),
            AnyScreen::Stats(s) => s.render(&layout, ops),
            AnyScreen::Cog(s) => s.render(&layout, ops),
            AnyScreen::Misc(s) => s.render(&layout, ops),
        }
    }

    pub fn update_gps(&mut self, gps: &GpsData)
        requires
            old(self).wf(),
        ensures
            final(self).wf(),
            final(self).page() == old(self).page(),
            screens_updated(*old(self), *final(self), Update::Gps(*gps)),
    {
        self.update(&Update::Gps(*gps));
    }

    pub fn update_vbat(&mut self, mv: u16)
        requires
            old(self).wf(),
        ensures
            final(self).wf(),
            final(self).page() == old(self).page(),
            screens_updated(*old(self), *final(self), Update::Vbat(mv)),
    {
        self.update(&Update::Vbat(mv));
    }

    /// Hands the reading to the live page.
    pub fn update(&mut self, update: &Update)
        requires
            old(self).wf(),
        ensures
            final(self).wf(),
            final(self).page() == old(self).page(),
            screens_updated(*old(self), *final(self), *update),
    {
        match &mut self.screens {
            AnyScreen::Speed(s) => s.update(update),
            AnyScreen::Stats(s) => s.update(update),
            AnyScreen::Cog(s) => s.update(update),
            AnyScreen::Misc(s) => s.update(update),
        }
    }
}

/// A freshly turned-to page right after its first full paint: the initial
/// values everywhere, every cell already clean.
pub open spec fn fresh_page_rendered(new: Screens) -> bool {
    match new.page() {
        PageId::Speed => {
            &&& new.speed().status().sats_chars() == blank8()
            &&& new.speed().status().sats_dirty() == Seq::new(8, |i: int| false)
            &&& new.speed().status().label_chars() == pad_clip(seq![107u8, 116u8], 4)
            &&& new.speed().status().label_dirty() == Seq::new(4, |i: int| false)
            &&& new.speed().status().bat() is None
            &&& !new.speed().status().blink()
            &&& new.speed().d0() == ((0u8, false))
            &&& new.speed().d1() == ((0u8, false))
            &&& new.speed().d2() == ((0u8, false))
        },
        PageId::Stats => {
            &&& new.stats().ms() == ((0u64, false))
            &&& new.stats().mas() == ((0u64, false))
            &&& new.stats().dist() == ((0u32, false))
            &&& new.stats().time_v() == ((None::<GpsTime>, false))
        },
        PageId::Cog => {
            &&& new.cog().status().sats_chars() == blank8()
            &&& new.cog().status().sats_dirty() == Seq::new(8, |i: int| false)
            &&& new.cog().status().label_chars() == pad_clip(seq![67u8, 79u8, 71u8], 4)
            &&& new.cog().status().label_dirty() == Seq::new(4, |i: int| false)
            &&& new.cog().status().bat() is None
            &&& !new.cog().status().blink()
            &&& new.cog().d0() == ((None::<u8>, false))
            &&& new.cog().d1() == ((None::<u8>, false))
            &&& new.cog().d2() == ((None::<u8>, false))
        },
        PageId::Misc => {
            &&& new.misc().status().sats_chars() == blank8()
            &&& new.misc().status().sats_dirty() == Seq::new(8, |i: int| false)
            &&& new.misc().status().label_chars() == pad_clip(Seq::empty(), 4)
            &&& new.misc().status().label_dirty() == Seq::new(4, |i: int| false)
            &&& new.misc().status().bat() is None
            &&& !new.misc().status().blink()
            &&& new.misc().hdop() == (((
                pad_clip(seq![72u8, 100u8, 111u8, 112u8, 58u8], 18),
                Seq::new(18, |i: int| false),
            )))
            &&& new.misc().lat() == (((
                pad_clip(seq![76u8, 97u8, 116u8, 32u8, 58u8], 18),
                Seq::new(18, |i: int| false),
            )))
            &&& new.misc().lng() == (((
                pad_clip(seq![76u8, 110u8, 103u8, 32u8, 58u8], 18),
                Seq::new(18, |i: int| false),
            )))
            &&& new.misc().spd() == (((
                pad_clip(seq![83u8, 112u8, 100u8, 32u8, 58u8], 18),
                Seq::new(18, |i: int| false),
            )))
            &&& new.misc().max() == (((
                pad_clip(seq![77u8, 97u8, 120u8, 32u8, 58u8], 18),
                Seq::new(18, |i: int| false),
            )))
            &&& new.misc().vbat() == (((
                pad_clip(seq![86u8, 98u8, 97u8, 116u8, 58u8], 18),
                Seq::new(18, |i: int| false),
            )))
        },
    }
}

/// What a render leaves behind, by page kind: the shown values are kept,
/// every change marker and dirty cell is consumed, and the status line's
/// gauge and blink phase are untouched.
pub open spec fn screens_rendered(old: Screens, new: Screens) -> bool {
    match old.page() {
        PageId::Speed => {
            &&& new.speed().status().sats_chars() == old.speed().status().sats_chars()
            &&& new.speed().status().sats_dirty() == Seq::new(8, |i: int| false)
            &&& new.speed().status().label_chars() == old.speed().status().label_chars()
            &&& new.speed().status().label_dirty() == Seq::new(4, |i: int| false)
            &&& new.speed().status().bat() == old.speed().status().bat()
            &&& new.speed().status().blink() == old.speed().status().blink()
            &&& new.speed().d0() == ((old.speed().d0().0, false))
            &&& new.speed().d1() == ((old.speed().d1().0, false))
            &&& new.speed().d2() == ((old.speed().d2().0, false))
        },
        PageId::Stats => {
            &&& new.stats().ms() == ((old.stats().ms().0, false))
            &&& new.stats().mas() == ((old.stats().mas().0, false))
            &&& new.stats().dist() == ((old.stats().dist().0, false))
            &&& new.stats().time_v() == ((old.stats().time_v().0, false))
        },
        PageId::Cog => {
            &&& new.cog().status().sats_chars() == old.cog().status().sats_chars()
            &&& new.cog().status().sats_dirty() == Seq::new(8, |i: int| false)
            &&& new.cog().status().label_chars() == old.cog().status().label_chars()
            &&& new.cog().status().label_dirty() == Seq::new(4, |i: int| false)
            &&& new.cog().status().bat() == old.cog().status().bat()
            &&& new.cog().status().blink() == old.cog().status().blink()
            &&& new.cog().d0() == ((old.cog().d0().0, false))
            &&& new.cog().d1() == ((old.cog().d1().0, false))
            &&& new.cog().d2() == ((old.cog().d2().0, false))
        },
        PageId::Misc => {
            &&& new.misc().status().sats_chars() == old.misc().status().sats_chars()
            &&& new.misc().status().sats_dirty() == Seq::new(8, |i: int| false)
            &&& new.misc().status().label_chars() == old.misc().status().label_chars()
            &&& new.misc().status().label_dirty() == Seq::new(4, |i: int| false)
            &&& new.misc().status().bat() == old.misc().status().bat()
            &&& new.misc().status().blink() == old.misc().status().blink()
            &&& new.misc().hdop() == (((old.misc().hdop().0, Seq::new(18, |i: int| false))))
            &&& new.misc().lat() == (((old.misc().lat().0, Seq::new(18, |i: int| false))))
            &&& new.misc().lng() == (((old.misc().lng().0, Seq::new(18, |i: int| false))))
            &&& new.misc().spd() == (((old.misc().spd().0, Seq::new(18, |i: int| false))))
            &&& new.misc().max() == (((old.misc().max().0, Seq::new(18, |i: int| false))))
            &&& new.misc().vbat() == (((old.misc().vbat().0, Seq::new(18, |i: int| false))))
        },
    }
}

/// How one reading changes the live page, by page kind.
pub open spec fn screens_updated(old: Screens, new: Screens, u: Update) -> bool {
    match old.page() {
        PageId::Speed => match u {
            Update::Gps(g) => {
                &&& updated_gps(old.speed().status(), new.speed().status(), g)
                &&& speed_digits_set(old.speed(), new.speed(), g.speed)
            },
            Update::Vbat(mv) => {
                &&& updated_vbat(old.speed().status(), new.speed().status(), mv)
                &&& new.speed().d0() == old.speed().d0()
                &&& new.speed().d1() == old.speed().d1()
                &&& new.speed().d2() == old.speed().d2()
            },
        },
        PageId::Stats => match u {
            Update::Gps(g) => {
                &&& new.stats().ms() == upd_set(old.stats().ms(), g.max_speed)
                &&& new.stats().mas() == upd_set(old.stats().mas(), g.max_avg_speed)
                &&& new.stats().dist() == upd_set(
                    old.stats().dist(),
                    dist_deci_nm(g.distance_m as nat) as u32,
                )
                &&& new.stats().time_v() == upd_set_time(old.stats().time_v(), g.time)
            },
            Update::Vbat(_) => new.stats() == old.stats(),
        },
        PageId::Cog => match u {
            Update::Gps(g) => {
                &&& updated_gps_twice(old.cog().status(), new.cog().status(), g)
                &&& cog_digits_set(old.cog(), new.cog(), g.course)
            },
            Update::Vbat(mv) => {
                &&& updated_vbat(old.cog().status(), new.cog().status(), mv)
                &&& new.cog().d0() == old.cog().d0()
                &&& new.cog().d1() == old.cog().d1()
                &&& new.cog().d2() == old.cog().d2()
            },
        },
        PageId::Misc => match u {
            Update::Gps(g) => misc_gps_written(old.misc(), new.misc(), g),
            Update::Vbat(mv) => misc_vbat_written(old.misc(), new.misc(), mv),
        },
    }
}

} // verus!
