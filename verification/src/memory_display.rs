//! Memory-in-pixel display framebuffer: a packed 1-bit bitmap with a dirty
//! flag per scanline. A refresh plans the bus traffic: only runs of dirty
//! lines are shipped, each line as its bit-reversed address and packed row,
//! and the hardware's polarity bit alternates on every transaction whether
//! or not anything changed.

use vstd::prelude::*;

verus! {

/// `b` with its bits in reverse order (the display wants line addresses
/// least-significant-bit first).
pub open spec fn spec_rev8(b: u8) -> u8 {
    (((b & 1) << 7) | ((b & 2) << 5) | ((b & 4) << 3) | ((b & 8) << 1) | ((b & 16) >> 1) | ((b
        & 32) >> 3) | ((b & 64) >> 5) | ((b & 128) >> 7)) as u8
}

pub fn rev8(b: u8) -> (r: u8)
    ensures
        r == spec_rev8(b),
{
    ((b & 1) << 7) | ((b & 2) << 5) | ((b & 4) << 3) | ((b & 8) << 1) | ((b & 16) >> 1) | ((b & 32)
        >> 3) | ((b & 64) >> 5) | ((b & 128) >> 7)
}

/// One scanline as shipped on the bus: its index, its bit-reversed address
/// byte, and its packed pixel bytes.
pub struct LineData {
    pub y: usize,
    pub addr: u8,
    pub pixels: Vec<u8>,
}

/// One chip-select window on the bus.
pub enum Transaction {
    /// The hardware clear command.
    Clear { vcom: bool },
    /// A run of consecutive dirty lines.
    Lines { vcom: bool, lines: Vec<LineData> },
    /// Nothing to draw: polarity maintenance only.
    Toggle { vcom: bool },
}

impl Transaction {
    pub open spec fn vcom_bit(&self) -> bool {
        match *self {
            Transaction::Clear { vcom } => vcom,
            Transaction::Lines { vcom, .. } => vcom,
            Transaction::Toggle { vcom } => vcom,
        }
    }
}

/// The line payload for row `y` of the framebuffer.
pub open spec fn spec_line_data(fb: Seq<u8>, widthb: nat, y: nat) -> (nat, u8, Seq<u8>) {
    (y, spec_rev8((y + 1) as u8), fb.subrange((y * widthb) as int, (y * widthb + widthb) as int))
}

/// The payloads of every dirty line below `upto`, in ascending order.
pub open spec fn dirty_payloads(fb: Seq<u8>, dirty: Seq<bool>, widthb: nat, upto: nat) -> Seq<
    (nat, u8, Seq<u8>),
>
    decreases upto,
{
    if upto == 0 {
        Seq::empty()
    } else {
        dirty_payloads(fb, dirty, widthb, (upto - 1) as nat) + (if dirty[upto - 1] {
            seq![spec_line_data(fb, widthb, (upto - 1) as nat)]
        } else {
            Seq::empty()
        })
    }
}

/// The payloads carried by a sequence of planned transactions.
pub open spec fn sent_payloads(ts: Seq<Transaction>) -> Seq<(nat, u8, Seq<u8>)>
    decreases ts.len(),
{
    if ts.len() == 0 {
        Seq::empty()
    } else {
        sent_payloads(ts.drop_last()) + (match ts.last() {
            Transaction::Lines { lines, .. } => lines_payloads(lines@),
            _ => Seq::empty(),
        })
    }
}

pub open spec fn lines_payloads(ls: Seq<LineData>) -> Seq<(nat, u8, Seq<u8>)> {
    ls.map_values(|l: LineData| (l.y as nat, l.addr, l.pixels@))
}

/// A run of consecutive lines.
pub open spec fn consecutive_lines(ls: Seq<LineData>) -> bool {
    forall|i: int| 0 < i < ls.len() ==> #[trigger] ls[i].y == ls[i - 1].y + 1
}

/// A run that no dirty neighbour could extend: bounded on each side by the
/// panel edge or a clean line.
pub open spec fn maximal_run(ls: Seq<LineData>, dirty: Seq<bool>) -> bool {
    ls.len() > 0 ==> {
        &&& (ls[0].y == 0 || !dirty[ls[0].y - 1])
        &&& (ls.last().y + 1 >= dirty.len() || !dirty[ls.last().y + 1])
    }
}

/// The polarity bits of a plan alternate, starting opposite the polarity
/// the display held before the refresh.
pub open spec fn vcom_alternates(ts: Seq<Transaction>, vcom0: bool) -> bool {
    forall|i: int|
        0 <= i < ts.len() ==> #[trigger] ts[i].vcom_bit() == (if i % 2 == 0 {
            !vcom0
        } else {
            vcom0
        })
}

/// The bytes of one transaction on the wire: the mode byte (with the
/// polarity bit), then for each line its address, its pixels and a dummy
/// byte, then a trailing dummy; a clear is its own two-byte command, and a
/// pure polarity toggle ships the polarity byte and a dummy.
pub open spec fn spec_transaction_bytes(t: Transaction) -> Seq<u8> {
    let vbit: u8 = if t.vcom_bit() {
        64
    } else {
        0
    };
    match t {
        Transaction::Clear { .. } => seq![(32 | vbit) as u8, 0u8],
        Transaction::Lines { lines, .. } => seq![(128 | vbit) as u8] + lines_bytes(lines@)
            + seq![0u8],
        Transaction::Toggle { .. } => seq![vbit, 0u8],
    }
}

pub open spec fn lines_bytes(ls: Seq<LineData>) -> Seq<u8>
    decreases ls.len(),
{
    if ls.len() == 0 {
        Seq::empty()
    } else {
        lines_bytes(ls.drop_last()) + seq![ls.last().addr] + ls.last().pixels@ + seq![0u8]
    }
}

/// Serializes one planned transaction to its wire bytes.
pub fn transaction_bytes(t: &Transaction) -> (r: Vec<u8>)
    ensures
        r@ == spec_transaction_bytes(*t),
{
    let mut out: Vec<u8> = Vec::new();
    match t {
        Transaction::Clear { vcom } => {
            out.push(
                32 | (if *vcom {
                    64
                } else {
                    0
                }),
            );
            out.push(0);
            proof {
                assert(out@ =~= spec_transaction_bytes(*t));
            }
        },
        Transaction::Lines { vcom, lines } => {
            out.push(
                128 | (if *vcom {
                    64
                } else {
                    0
                }),
            );
            let mut i: usize = 0;
            while i < lines.len()
                invariant
                    i <= lines@.len(),
                    out@ =~= seq![
                        (128 | (if t.vcom_bit() {
                            64u8
                        } else {
                            0u8
                        })) as u8,
                    ] + lines_bytes(lines@.take(i as int)),
                    t matches Transaction::Lines { lines: tl, .. } && tl@ == lines@,
                decreases lines@.len() - i,
            {
                out.push(lines[i].addr);
                let mut j: usize = 0;
                let ghost mid = out@;
                while j < lines[i].pixels.len()
                    invariant
                        j <= lines@[i as int].pixels@.len(),
                        i < lines@.len(),
                        out@ =~= mid + lines@[i as int].pixels@.take(j as int),
                    decreases lines@[i as int].pixels@.len() - j,
                {
                    out.push(lines[i].pixels[j]);
                    j = j + 1;
                }
                out.push(0);
                proof {
                    assert(lines@.take(i + 1).drop_last() =~= lines@.take(i as int));
                    assert(out@ =~= seq![
                        (128 | (if t.vcom_bit() {
                            64u8
                        } else {
                            0u8
                        })) as u8,
                    ] + lines_bytes(lines@.take(i + 1)));
                }
                i = i + 1;
            }
            out.push(0);
            proof {
                assert(lines@.take(lines@.len() as int) =~= lines@);
                assert(out@ =~= spec_transaction_bytes(*t));
            }
        },
        Transaction::Toggle { vcom } => {
            out.push(
                if *vcom {
                    64
                } else {
                    0
                },
            );
            out.push(0);
            proof {
                assert(out@ =~= spec_transaction_bytes(*t));
            }
        },
    }
    out
}

/// The framebuffer of an `N`-byte, `H`-line memory display.
pub struct MemoryDisplay<const N: usize, const H: usize> {
    vcom: bool,
    height: usize,
    widthpx: usize,
    widthb: usize,
    framebuf: Vec<u8>,
    dirty_lines: Vec<bool>,
    pending_clear: bool,
}

impl<const N: usize, const H: usize> MemoryDisplay<N, H> {
    pub closed spec fn fb(&self) -> Seq<u8> {
        self.framebuf@
    }

    pub closed spec fn dirty(&self) -> Seq<bool> {
        self.dirty_lines@
    }

    pub closed spec fn vcom_state(&self) -> bool {
        self.vcom
    }

    pub closed spec fn clear_pending(&self) -> bool {
        self.pending_clear
    }

    pub open spec fn spec_widthb(&self) -> nat {
        (N / H) as nat
    }

    pub closed spec fn geometry_ok(&self) -> bool {
        &&& self.height == H
        &&& self.widthb == N / H
        &&& self.widthpx == (N / H) * 8
    }

    pub open spec fn wf(&self) -> bool {
        &&& self.fb().len() == N
        &&& self.dirty().len() == H
        &&& self.geometry_ok()
        &&& 1 <= H <= 255
        &&& N == (N / H) * H
        &&& N / H >= 1
    }

    /// A fresh framebuffer: all pixels off (bits set), no line dirty, and a
    /// hardware clear owed to the panel on the first refresh.
    pub fn new() -> (r: MemoryDisplay<N, H>)
        requires
            1 <= H <= 255,
            N == (N / H) * H,
            N / H >= 1,
            (N / H) * 8 <= usize::MAX,
        ensures
            r.wf(),
            r.fb() == Seq::new(N as nat, |i: int| 255u8),
            r.dirty() == Seq::new(H as nat, |i: int| false),
            !r.vcom_state(),
            r.clear_pending(),
    {
        let mut framebuf: Vec<u8> = Vec::new();
        let mut i: usize = 0;
        while i < N
            invariant
                i <= N,
                framebuf@ =~= Seq::new(i as nat, |j: int| 255u8),
            decreases N - i,
        {
            framebuf.push(255);
            i = i + 1;
        }
        let mut dirty_lines: Vec<bool> = Vec::new();
        let mut y: usize = 0;
        while y < H
            invariant
                y <= H,
                dirty_lines@ =~= Seq::new(y as nat, |j: int| false),
            decreases H - y,
        {
            dirty_lines.push(false);
            y = y + 1;
        }
        proof {
            assert(framebuf@ =~= Seq::new(N as nat, |j: int| 255u8));
            assert(dirty_lines@ =~= Seq::new(H as nat, |j: int| false));
        }
        MemoryDisplay {
            vcom: false,
            height: H,
            widthpx: (N / H) * 8,
            widthb: N / H,
            framebuf,
            dirty_lines,
            pending_clear: true,
        }
    }

    pub fn width(&self) -> (r: usize)
        requires
            self.wf(),
        ensures
            r == self.spec_widthb() * 8,
    {
        self.widthpx
    }

    pub fn height(&self) -> (r: usize)
        ensures
            r == H,
    {
        H
    }

    /// Writes one pixel: a set bit is an off (reflective) pixel, so drawing
    /// "on" clears the bit. The pixel's scanline is marked dirty. Writes
    /// outside the panel are ignored, as on the wire.
    pub fn set_pixel(&mut self, x: usize, y: usize, on: bool)
        requires
            old(self).wf(),
        ensures
            final(self).wf(),
            final(self).vcom_state() == old(self).vcom_state(),
            final(self).clear_pending() == old(self).clear_pending(),
            x < old(self).spec_widthb() * 8 && y < H ==> {
                let off = y * old(self).spec_widthb() + x / 8;
                let bit = (128u8 >> ((x % 8) as u8)) as u8;
                &&& final(self).fb() == old(self).fb().update(
                    off as int,
                    (if on {
                        old(self).fb()[off as int] & !bit
                    } else {
                        old(self).fb()[off as int] | bit
                    }) as u8,
                )
                &&& final(self).dirty() == old(self).dirty().update(y as int, true)
            },
            !(x < old(self).spec_widthb() * 8 && y < H) ==> *final(self) == *old(self),
    {
        if x >= self.widthpx || y >= self.height {
            return ;
        }
        proof {
            assert(y * self.spec_widthb() + x / 8 < N) by (nonlinear_arith)
                requires
                    y < H,
                    x < self.spec_widthb() * 8,
                    self.spec_widthb() >= 1,
                    N == self.spec_widthb() * H,
            ;
        }
        let byte_offset = y * self.widthb + x / 8;
        let bit: u8 = 128u8 >> ((x % 8) as u8);
        if on {
            let b = self.framebuf[byte_offset];
            self.framebuf.set(byte_offset, b & !bit);
        } else {
            let b = self.framebuf[byte_offset];
            self.framebuf.set(byte_offset, b | bit);
        }
        self.dirty_lines.set(y, true);
    }

    /// Fills the whole bitmap with one color. Clearing to off defers the
    /// panel's clear command to the next refresh (no line data need ship);
    /// filling with on marks every line dirty instead.
    pub fn clear(&mut self, on: bool)
        requires
            old(self).wf(),
        ensures
            final(self).wf(),
            final(self).vcom_state() == old(self).vcom_state(),
            final(self).fb() == Seq::new(
                N as nat,
                |i: int|
                    if on {
                        0u8
                    } else {
                        255u8
                    },
            ),
            final(self).dirty() == Seq::new(H as nat, |i: int| on),
            final(self).clear_pending() == (old(self).clear_pending() || !on),
    {
        let fill: u8 = if on {
            0
        } else {
            255
        };
        let mut i: usize = 0;
        while i < N
            invariant
                i <= N,
                self.framebuf@.len() == N,
                self.dirty_lines@ == old(self).dirty_lines@,
                self.vcom == old(self).vcom,
                self.pending_clear == old(self).pending_clear,
                self.geometry_ok(),
                fill == (if on {
                    0u8
                } else {
                    255u8
                }),
                forall|j: int| 0 <= j < i ==> self.framebuf@[j] == fill,
            decreases N - i,
        {
            self.framebuf.set(i, fill);
            i = i + 1;
        }
        let mut y: usize = 0;
        while y < H
            invariant
                y <= H,
                self.framebuf@.len() == N,
                self.dirty_lines@.len() == H,
                self.vcom == old(self).vcom,
                self.pending_clear == old(self).pending_clear,
                self.geometry_ok(),
                forall|j: int| 0 <= j < N ==> self.framebuf@[j] == (if on {
                    0u8
                } else {
                    255u8
                }),
                forall|j: int| 0 <= j < y ==> self.dirty_lines@[j] == on,
            decreases H - y,
        {
            self.dirty_lines.set(y, on);
            y = y + 1;
        }
        if !on {
            self.pending_clear = true;
        }
        proof {
            assert(self.framebuf@ =~= Seq::new(
                N as nat,
                |i: int|
                    if on {
                        0u8
                    } else {
                        255u8
                    },
            ));
            assert(self.dirty_lines@ =~= Seq::new(H as nat, |i: int| on));
        }
    }
}

impl<const N: usize, const H: usize> MemoryDisplay<N, H> {
    /// One packed row of the framebuffer.
    fn row_bytes(&self, y: usize) -> (r: Vec<u8>)
        requires
            self.wf(),
            y < H,
        ensures
            r@ == self.fb().subrange(
                (y * self.spec_widthb()) as int,
                (y * self.spec_widthb() + self.spec_widthb()) as int,
            ),
    {
        proof {
            assert(y * self.spec_widthb() + self.spec_widthb() <= N) by (nonlinear_arith)
                requires
                    y < H,
                    N == self.spec_widthb() * H,
            ;
        }
        let base = y * self.widthb;
        let mut r: Vec<u8> = Vec::new();
        let mut i: usize = 0;
        while i < self.widthb
            invariant
                self.wf(),
                i <= self.spec_widthb(),
                base == y * self.spec_widthb(),
                base + self.spec_widthb() <= N,
                r@ =~= self.fb().subrange(base as int, (base + i) as int),
            decreases self.spec_widthb() - i,
        {
            r.push(self.framebuf[base + i]);
            proof {
                assert(r@ =~= self.fb().subrange(base as int, (base + i + 1) as int));
            }
            i = i + 1;
        }
        r
    }

    /// Plans one refresh: the bus transactions that bring the panel up to
    /// date. A pending clear ships the panel's clear command first; then
    /// every run of consecutive dirty lines becomes one transaction that
    /// carries exactly those rows, in ascending order; clean lines ship
    /// nothing. If there was nothing at all to send, a single polarity
    /// toggle is still planned, because the panel's polarity bit must keep
    /// alternating; it alternates across every planned transaction.
    ///
    /// Planning a refresh does not consume the dirty flags: a line stays
    /// dirty, and is shipped again on later refreshes, until the bitmap is
    /// cleared.
    pub fn refresh(&mut self) -> (ts: Vec<Transaction>)
        requires
            old(self).wf(),
        ensures
            final(self).wf(),
            final(self).fb() == old(self).fb(),
            final(self).dirty() == old(self).dirty(),
            !final(self).clear_pending(),
            sent_payloads(ts@) == dirty_payloads(
                old(self).fb(),
                old(self).dirty(),
                old(self).spec_widthb(),
                H as nat,
            ),
            old(self).clear_pending() ==> ts@.len() >= 1 && ts@[0] is Clear,
            forall|i: int|
                (if old(self).clear_pending() {
                    1int
                } else {
                    0int
                }) <= i < ts@.len() ==> !((#[trigger] ts@[i]) is Clear),
            forall|i: int|
                0 <= i < ts@.len() ==> ((#[trigger] ts@[i]) matches Transaction::Lines {
                    lines,
                    ..
                } ==> lines@.len() > 0 && consecutive_lines(lines@) && maximal_run(
                    lines@,
                    old(self).dirty(),
                )),
            forall|i: int|
                0 <= i < ts@.len() && (#[trigger] ts@[i]) is Toggle ==> ts@.len() == 1,
            ts@.len() >= 1,
            vcom_alternates(ts@, old(self).vcom_state()),
            final(self).vcom_state() == (if ts@.len() % 2 == 0 {
                old(self).vcom_state()
            } else {
                !old(self).vcom_state()
            }),
    {
        let ghost fb0 = self.fb();
        let ghost d0 = self.dirty();
        let ghost wb = self.spec_widthb();
        let ghost vcom0 = self.vcom;
        let ghost pending0 = self.pending_clear;
        let mut ts: Vec<Transaction> = Vec::new();

        if self.pending_clear {
            self.vcom = !self.vcom;
            ts.push(Transaction::Clear { vcom: self.vcom });
            self.pending_clear = false;
            proof {
                assert(ts@.drop_last() =~= Seq::<Transaction>::empty());
            }
        }
        proof {
            if pending0 {
                assert(ts@.len() == 1);
                assert(ts@.last() is Clear);
                assert(sent_payloads(ts@) == sent_payloads(ts@.drop_last()) + Seq::<
                    (nat, u8, Seq<u8>),
                >::empty());
                assert(ts@.drop_last() =~= Seq::<Transaction>::empty());
                assert(sent_payloads(ts@.drop_last()) == sent_payloads(
                    Seq::<Transaction>::empty(),
                ));
            }
            assert(sent_payloads(ts@) =~= Seq::empty());
            assert(dirty_payloads(fb0, d0, wb, 0) =~= Seq::empty());
        }
        let mut y: usize = 0;
        while y < H
            invariant
                self.wf(),
                y <= H,
                self.fb() == fb0,
                self.dirty() == d0,
                wb == self.spec_widthb(),
                !self.pending_clear,
                sent_payloads(ts@) =~= dirty_payloads(fb0, d0, wb, y as nat),
                pending0 ==> ts@.len() >= 1 && ts@[0] is Clear,
                forall|i: int|
                    (if pending0 {
                        1int
                    } else {
                        0int
                    }) <= i < ts@.len() ==> !((#[trigger] ts@[i]) is Clear),
                forall|i: int| 0 <= i < ts@.len() ==> !((#[trigger] ts@[i]) is Toggle),
                forall|i: int|
                    0 <= i < ts@.len() ==> ((#[trigger] ts@[i]) matches Transaction::Lines {
                        lines,
                        ..
                    } ==> lines@.len() > 0 && consecutive_lines(lines@) && maximal_run(
                        lines@,
                        d0,
                    )),
                y < H && d0[y as int] ==> (y == 0 || !d0[y - 1]),
                vcom_alternates(ts@, vcom0),
                self.vcom == (if ts@.len() % 2 == 0 {
                    vcom0
                } else {
                    !vcom0
                }),
            decreases H - y,
        {
            if self.dirty_lines[y] {
                let ghost sent0 = sent_payloads(ts@);
                let ghost ystart = y as int;
                let mut lines: Vec<LineData> = Vec::new();
                while y < H && self.dirty_lines[y]
                    invariant
                        self.wf(),
                        ystart <= y <= H,
                        self.fb() == fb0,
                        self.dirty() == d0,
                        wb == self.spec_widthb(),
                        !self.pending_clear,
                        sent0 == sent_payloads(ts@),
                        y == ystart + lines@.len(),
                        ystart < H && d0[ystart],
                        ystart == 0 || !d0[ystart - 1],
                        sent0 + lines_payloads(lines@) =~= dirty_payloads(fb0, d0, wb, y as nat),
                        forall|i: int|
                            0 <= i < lines@.len() ==> (#[trigger] lines@[i]).y == ystart + i,
                        consecutive_lines(lines@),
                    decreases H - y,
                {
                    let addr = rev8((y as u8) + 1);
                    let pixels = self.row_bytes(y);
                    proof {
                        assert(y < 255);
                        assert(((y + 1) as u8) == (y as u8) + 1);
                        assert(addr == spec_rev8((y + 1) as u8));
                        assert(y * wb + wb <= N) by (nonlinear_arith)
                            requires
                                y < H,
                                N == wb * H,
                        ;
                        assert(pixels@ == fb0.subrange((y * wb) as int, (y * wb + wb) as int));
                    }
                    lines.push(LineData { y, addr, pixels });
                    proof {
                        assert(lines@.drop_last() =~= lines@.take(lines@.len() - 1));
                        assert(lines@.last().y == y);
                        assert(lines@.last().addr == spec_rev8((y + 1) as u8));
                        assert(lines_payloads(lines@) =~= lines_payloads(
                            lines@.drop_last(),
                        ).push((y as nat, spec_rev8((y + 1) as u8), fb0.subrange(
                            (y * wb) as int,
                            (y * wb + wb) as int,
                        ))));
                        assert(sent0 + lines_payloads(lines@) =~= dirty_payloads(
                            fb0,
                            d0,
                            wb,
                            (y + 1) as nat,
                        ));
                    }
                    y = y + 1;
                }
                proof {
                    assert(lines@.len() > 0);
                    assert(lines@[0].y == ystart);
                    assert(lines@.last().y + 1 == y);
                    assert(y == H || !d0[y as int]);
                    assert(maximal_run(lines@, d0));
                }
                self.vcom = !self.vcom;
                let ghost ts_before = ts@;
                ts.push(Transaction::Lines { vcom: self.vcom, lines });
                proof {
                    assert(ts@.drop_last() =~= ts_before);
                    assert(sent_payloads(ts@) =~= dirty_payloads(fb0, d0, wb, y as nat));
                }
            } else {
                proof {
                    assert(dirty_payloads(fb0, d0, wb, (y + 1) as nat) =~= dirty_payloads(
                        fb0,
                        d0,
                        wb,
                        y as nat,
                    ));
                }
                y = y + 1;
            }
        }
        if ts.len() == 0 {
            self.vcom = !self.vcom;
            let ghost ts_before = ts@;
            ts.push(Transaction::Toggle { vcom: self.vcom });
            proof {
                assert(ts@.drop_last() =~= ts_before);
                assert(sent_payloads(ts@) == sent_payloads(ts_before) + Seq::<
                    (nat, u8, Seq<u8>),
                >::empty());
                assert(sent_payloads(ts@) =~= sent_payloads(ts_before));
            }
        }
        proof {
            assert(sent_payloads(ts@) =~= dirty_payloads(fb0, d0, wb, H as nat));
        }
        ts
    }
}

} // verus!
