//! Fixed-capacity byte writer used to format text for the display fields.
//!
//! Writes that run past the capacity are truncated, never an error that
//! aborts rendering: the display simply shows the prefix that fits.

use vstd::prelude::*;

verus! {

/// Decimal digits of `v`, most significant first; empty for `v == 0`.
pub open spec fn digits_of(v: nat) -> Seq<u8>
    decreases v,
{
    if v == 0 {
        Seq::empty()
    } else {
        digits_of(v / 10).push((48 + v % 10) as u8)
    }
}

/// Decimal representation of `v`, with `0` written as `"0"`.
pub open spec fn dec_rep(v: nat) -> Seq<u8> {
    if v == 0 {
        seq![48u8]
    } else {
        digits_of(v)
    }
}

/// `value` rendered right-aligned in a field of `width` cells, padded with
/// `pad`; a zero contributes no digits, so its whole field is padding and
/// a zero reading shows as blank unless the pad character is a zero.
pub open spec fn padded_num(width: nat, pad: u8, value: nat) -> Seq<u8>
    recommends
        digits_of(value).len() <= width,
{
    Seq::new((width - digits_of(value).len()) as nat, |i: int| pad) + digits_of(value)
}

/// `s` written into `bytes` at `cursor`, truncated at the end of `bytes`.
pub open spec fn spliced(bytes: Seq<u8>, cursor: nat, s: Seq<u8>) -> Seq<u8> {
    Seq::new(
        bytes.len(),
        |i: int|
            if cursor <= i < cursor + s.len() {
                s[i - cursor]
            } else {
                bytes[i]
            },
    )
}

pub struct U8Writer {
    buf: Vec<u8>,
    cursor: usize,
}

impl U8Writer {
    /// The whole backing buffer, written prefix and untouched suffix alike.
    pub closed spec fn bytes(&self) -> Seq<u8> {
        self.buf@
    }

    pub closed spec fn cursor(&self) -> nat {
        self.cursor as nat
    }

    pub open spec fn spec_capacity(&self) -> nat {
        self.bytes().len()
    }

    /// The bytes written so far.
    pub open spec fn written(&self) -> Seq<u8> {
        self.bytes().take(self.cursor() as int)
    }

    pub closed spec fn wf(&self) -> bool {
        self.cursor <= self.buf.len()
    }

    pub fn new(capacity: usize) -> (r: U8Writer)
        ensures
            r.wf(),
            r.cursor() == 0,
            r.bytes() == Seq::new(capacity as nat, |i: int| 0u8),
    {
        let mut buf: Vec<u8> = Vec::new();
        let mut i: usize = 0;
        while i < capacity
            invariant
                i <= capacity,
                buf@ =~= Seq::new(i as nat, |j: int| 0u8),
            decreases capacity - i,
        {
            buf.push(0);
            i = i + 1;
        }
        proof {
            assert(buf@ =~= Seq::new(capacity as nat, |j: int| 0u8));
        }
        U8Writer { buf, cursor: 0 }
    }

    /// Fills everything at and after the cursor with `v`; the cursor stays.
    pub fn fill(&mut self, v: u8)
        requires
            old(self).wf(),
        ensures
            final(self).wf(),
            final(self).cursor() == old(self).cursor(),
            final(self).bytes() == old(self).written() + Seq::new(
                (old(self).spec_capacity() - old(self).cursor()) as nat,
                |i: int| v,
            ),
    {
        let mut i: usize = self.cursor;
        while i < self.buf.len()
            invariant
                self.cursor <= i <= self.buf.len(),
                self.cursor == old(self).cursor,
                self.buf@.len() == old(self).buf@.len(),
                self.buf@.take(self.cursor as int) == old(self).buf@.take(self.cursor as int),
                forall|j: int| self.cursor <= j < i ==> self.buf@[j] == v,
                forall|j: int| i <= j < self.buf@.len() ==> self.buf@[j] == old(self).buf@[j],
            decreases self.buf.len() - i,
        {
            self.buf.set(i, v);
            i = i + 1;
        }
        proof {
            assert(self.buf@ =~= old(self).written() + Seq::new(
                (old(self).spec_capacity() - old(self).cursor()) as nat,
                |i: int| v,
            ));
        }
    }

    /// The written prefix, copied out.
    pub fn as_str(&self) -> (r: Vec<u8>)
        requires
            self.wf(),
        ensures
            r@ == self.written(),
    {
        let mut out: Vec<u8> = Vec::new();
        let mut i: usize = 0;
        while i < self.cursor
            invariant
                i <= self.cursor,
                self.wf(),
                out@ =~= self.buf@.take(i as int),
            decreases self.cursor - i,
        {
            out.push(self.buf[i]);
            i = i + 1;
        }
        out
    }

    /// The whole backing buffer, for diffing into a display field.
    pub fn buffer(&self) -> (r: &Vec<u8>)
        ensures
            r@ == self.bytes(),
    {
        &self.buf
    }

    pub fn capacity(&self) -> (r: usize)
        ensures
            r == self.spec_capacity(),
    {
        self.buf.len()
    }

    pub fn clear(&mut self)
        ensures
            final(self).wf(),
            final(self).cursor() == 0,
            final(self).bytes() == old(self).bytes(),
    {
        self.cursor = 0;
    }

    pub fn len(&self) -> (r: usize)
        ensures
            r == self.cursor(),
    {
        self.cursor
    }

    pub fn empty(&self) -> (r: bool)
        ensures
            r == (self.cursor() == 0),
    {
        self.cursor == 0
    }

    pub fn full(&self) -> (r: bool)
        ensures
            r == (self.cursor() == self.spec_capacity()),
    {
        self.capacity() == self.cursor
    }

    /// Writes one byte, or reports that the buffer is full.
    pub fn write_char(&mut self, c: u8) -> (r: Result<(), ()>)
        requires
            old(self).wf(),
        ensures
            final(self).wf(),
            old(self).cursor() < old(self).spec_capacity() ==> {
                &&& r is Ok
                &&& final(self).bytes() == old(self).bytes().update(old(self).cursor() as int, c)
                &&& final(self).cursor() == old(self).cursor() + 1
            },
            old(self).cursor() == old(self).spec_capacity() ==> r is Err && *final(self) == *old(
                self,
            ),
    {
        if self.full() {
            return Err(());
        }
        self.buf.set(self.cursor, c);
        self.cursor = self.cursor + 1;
        Ok(())
    }

    /// Writes as much of `s` as fits, like the display's formatting sink:
    /// never an error, the overflow is dropped.
    pub fn write_str(&mut self, s: &[u8])
        requires
            old(self).wf(),
        ensures
            final(self).wf(),
            final(self).bytes() == spliced(old(self).bytes(), old(self).cursor(), s@.take(
                min_nat(
                    s@.len(),
                    (old(self).spec_capacity() - old(self).cursor()) as nat,
                ) as int,
            )),
            final(self).cursor() == old(self).cursor() + min_nat(
                s@.len(),
                (old(self).spec_capacity() - old(self).cursor()) as nat,
            ),
    {
        let room: usize = self.buf.len() - self.cursor;
        let k: usize = if s.len() < room {
            s.len()
        } else {
            room
        };
        let end: usize = self.cursor + k;
        let mut i: usize = self.cursor;
        while i < end
            invariant
                self.cursor <= i <= end,
                end == self.cursor + k,
                k == min_nat(s@.len(), (old(self).bytes().len() - old(self).cursor()) as nat),
                self.cursor == old(self).cursor,
                end <= self.buf@.len(),
                k <= s@.len(),
                self.buf@.len() == old(self).buf@.len(),
                forall|j: int| self.cursor <= j < i ==> self.buf@[j] == s@[j - self.cursor],
                forall|j: int|
                    0 <= j < self.buf@.len() && !(self.cursor <= j < i) ==> self.buf@[j] == old(
                        self,
                    ).buf@[j],
            decreases end - i,
        {
            self.buf.set(i, s[i - self.cursor]);
            i = i + 1;
        }
        self.cursor = self.cursor + k;
        proof {
            assert(self.buf@ =~= spliced(old(self).bytes(), old(self).cursor(), s@.take(
                min_nat(
                    s@.len(),
                    (old(self).spec_capacity() - old(self).cursor()) as nat,
                ) as int,
            )));
        }
    }
}

pub open spec fn min_nat(a: nat, b: nat) -> nat {
    if a <= b {
        a
    } else {
        b
    }
}

pub open spec fn pow10(k: nat) -> nat
    decreases k,
{
    if k == 0 {
        1
    } else {
        10 * pow10((k - 1) as nat)
    }
}

/// A value below `10^k` has at most `k` decimal digits.
pub proof fn lemma_digits_len(v: nat, k: nat)
    requires
        v < pow10(k),
    ensures
        digits_of(v).len() <= k,
    decreases k,
{
    if v > 0 {
        assert(k > 0);
        assert(v / 10 < pow10((k - 1) as nat)) by (nonlinear_arith)
            requires
                v < 10 * pow10((k - 1) as nat),
        ;
        lemma_digits_len(v / 10, (k - 1) as nat);
    }
}

/// A value at least `10^k` has more than `k` decimal digits.
pub proof fn lemma_digits_len_lower(v: nat, k: nat)
    requires
        v >= pow10(k),
    ensures
        digits_of(v).len() >= k + 1,
    decreases k,
{
    assert(v > 0) by {
        lemma_pow10_positive(k);
    }
    if k > 0 {
        assert(v / 10 >= pow10((k - 1) as nat)) by (nonlinear_arith)
            requires
                v >= 10 * pow10((k - 1) as nat),
        ;
        lemma_digits_len_lower(v / 10, (k - 1) as nat);
    }
}

pub proof fn lemma_pow10_positive(k: nat)
    ensures
        pow10(k) >= 1,
    decreases k,
{
    if k > 0 {
        lemma_pow10_positive((k - 1) as nat);
    }
}

/// Any 64-bit value has at most 20 decimal digits.
pub proof fn lemma_digits_len_u64(v: nat)
    requires
        v <= u64::MAX,
    ensures
        digits_of(v).len() <= 20,
{
    assert(pow10(20) == 0x56bc75e2d63100000) by {
        assert(pow10(0) == 1);
        assert(pow10(1) == 10);
        assert(pow10(2) == 100);
        assert(pow10(3) == 1000);
        assert(pow10(4) == 10000);
        assert(pow10(5) == 100000);
        assert(pow10(6) == 1000000);
        assert(pow10(7) == 10000000);
        assert(pow10(8) == 100000000);
        assert(pow10(9) == 1000000000);
        assert(pow10(10) == 10000000000);
        assert(pow10(11) == 100000000000);
        assert(pow10(12) == 1000000000000);
        assert(pow10(13) == 10000000000000);
        assert(pow10(14) == 100000000000000);
        assert(pow10(15) == 1000000000000000);
        assert(pow10(16) == 10000000000000000);
        assert(pow10(17) == 100000000000000000);
        assert(pow10(18) == 1000000000000000000);
        assert(pow10(19) == 10000000000000000000);
    }
    lemma_digits_len(v, 20);
}

/// The decimal digits of `value`, most significant first.
pub fn digit_vec(value: u64) -> (r: Vec<u8>)
    ensures
        r@ == digits_of(value as nat),
{
    let mut out: Vec<u8> = Vec::new();
    let mut cur: u64 = value;
    while cur > 0
        invariant
            digits_of(value as nat) == digits_of(cur as nat) + out@,
        decreases cur,
    {
        let d: u8 = (cur % 10) as u8 + 48;
        proof {
            assert(digits_of(cur as nat) == digits_of(cur as nat / 10).push(
                (48 + cur as nat % 10) as u8,
            ));
            assert(digits_of(cur as nat / 10).push(d) + out@ =~= digits_of(cur as nat / 10) + out@
                .insert(0, d));
        }
        out.insert(0, d);
        cur = cur / 10;
    }
    proof {
        assert(digits_of(value as nat) =~= out@);
    }
    out
}

impl U8Writer {
    /// Writes `value` right-aligned in `width` cells padded with `pad`,
    /// truncated at the buffer's end; `Ok` when the whole field fit.
    pub fn write_number(&mut self, width: usize, pad: u8, value: u32) -> (r: Result<(), ()>)
        requires
            old(self).wf(),
            digits_of(value as nat).len() <= width,
        ensures
            final(self).wf(),
            final(self).bytes() == spliced(
                old(self).bytes(),
                old(self).cursor(),
                padded_num(width as nat, pad, value as nat).take(
                    min_nat(
                        width as nat,
                        (old(self).spec_capacity() - old(self).cursor()) as nat,
                    ) as int,
                ),
            ),
            final(self).cursor() == old(self).cursor() + min_nat(
                width as nat,
                (old(self).spec_capacity() - old(self).cursor()) as nat,
            ),
            r is Ok <==> old(self).cursor() + width <= old(self).spec_capacity(),
    {
        let digits = digit_vec(value as u64);
        let npad: usize = width - digits.len();
        let mut field: Vec<u8> = Vec::new();
        let mut i: usize = 0;
        while i < npad
            invariant
                i <= npad,
                field@ =~= Seq::new(i as nat, |j: int| pad),
            decreases npad - i,
        {
            field.push(pad);
            i = i + 1;
        }
        let mut d: usize = 0;
        while d < digits.len()
            invariant
                d <= digits@.len(),
                field@ =~= Seq::new(npad as nat, |j: int| pad) + digits@.take(d as int),
            decreases digits@.len() - d,
        {
            field.push(digits[d]);
            d = d + 1;
        }
        proof {
            assert(field@ =~= padded_num(width as nat, pad, value as nat));
        }
        let fits: bool = width <= self.buf.len() - self.cursor;
        self.write_str(field.as_slice());
        if fits {
            Ok(())
        } else {
            Err(())
        }
    }

    /// Writes the plain decimal representation of `value` (`0` as `"0"`),
    /// truncated at the buffer's end.
    pub fn write_uint(&mut self, value: u64)
        requires
            old(self).wf(),
        ensures
            final(self).wf(),
            final(self).bytes() == spliced(
                old(self).bytes(),
                old(self).cursor(),
                dec_rep(value as nat).take(
                    min_nat(
                        dec_rep(value as nat).len(),
                        (old(self).spec_capacity() - old(self).cursor()) as nat,
                    ) as int,
                ),
            ),
            final(self).cursor() == old(self).cursor() + min_nat(
                dec_rep(value as nat).len(),
                (old(self).spec_capacity() - old(self).cursor()) as nat,
            ),
    {
        if value == 0 {
            let zero: Vec<u8> = vec![48u8];
            proof {
                assert(zero@ =~= dec_rep(value as nat));
            }
            self.write_str(zero.as_slice());
        } else {
            let digits = digit_vec(value);
            self.write_str(digits.as_slice());
        }
    }
}

} // verus!
