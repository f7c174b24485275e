//! Dirty-tracking text layer and stateless layout helpers.
//!
//! Rendering is expressed as a list of abstract draw operations (glyph
//! runs, filled dots for decimal points, rectangles, lines); the caller
//! rasterizes them onto the framebuffer. A `DisplayField` keeps one byte
//! and one dirty bit per character cell, so an unchanged field contributes
//! no draw operations at all.

use vstd::prelude::*;

verus! {

/// A pixel position; the display origin is the top-left corner.
#[derive(Clone, Copy, PartialEq, Eq, Structural, Debug)]
pub struct Point {
    pub x: i32,
    pub y: i32,
}

impl Point {
    pub fn new(x: i32, y: i32) -> (r: Point)
        ensures
            r == (Point { x, y }),
    {
        Point { x, y }
    }
}

/// The four fonts of the display: two text sizes and two digit-only sizes.
#[derive(Clone, Copy, PartialEq, Eq, Structural, Debug)]
pub enum FontId {
    /// 18-point text, 12 x 22 pixel cells.
    Small,
    /// 24-point text, 16 x 29 pixel cells.
    Med,
    /// Digit glyphs, 60 x 78 pixel cells.
    MedDigits,
    /// Digit glyphs, 120 x 156 pixel cells.
    BigDigits,
}

/// Cell width of the medium text font, used by the field grid.
pub const CHAR_WIDTH: i32 = 16;

/// Cell height of the medium text font.
pub const CHAR_HEIGHT: i32 = 29;

/// Cell width of the big digit font.
pub const BIG_CHAR_WIDTH: i32 = 120;

pub open spec fn spec_char_width(id: FontId) -> int {
    match id {
        FontId::Small => 12,
        FontId::Med => 16,
        FontId::MedDigits => 60,
        FontId::BigDigits => 120,
    }
}

pub open spec fn spec_char_height(id: FontId) -> int {
    match id {
        FontId::Small => 22,
        FontId::Med => 29,
        FontId::MedDigits => 78,
        FontId::BigDigits => 156,
    }
}

/// Diameter of the decimal-point dot: the digit fonts carry no '.' glyph,
/// so the point is drawn as a filled circle scaled to the font height.
pub open spec fn spec_dot_diameter(id: FontId) -> int {
    spec_char_height(id) / 7
}

/// One abstract draw operation, rasterized by the caller.
#[derive(Clone, Copy, PartialEq, Eq, Structural, Debug)]
pub enum DrawOp {
    /// One glyph of a font, drawn with its cell's top-left at (x, y).
    Glyph { font: FontId, x: i32, y: i32, ch: u8 },
    /// A filled circle in the foreground color (a decimal point).
    Dot { x: i32, y: i32, diameter: i32 },
    /// An axis-aligned rectangle, filled with foreground or background.
    Rect { x: i32, y: i32, width: i32, height: i32, fill_on: bool },
    /// A two-pixel-wide foreground line.
    Line { x0: i32, y0: i32, x1: i32, y1: i32 },
}

/// Coordinate bound accepted by the layout helpers, far beyond the physical
/// display, so that cursor arithmetic stays inside `i32`.
pub const MAX_COORD: i32 = 10000000;

/// Longest text run the layout helpers accept.
pub const MAX_TEXT: usize = 1000;

pub open spec fn coord_ok(p: Point) -> bool {
    &&& -MAX_COORD <= p.x <= MAX_COORD
    &&& -MAX_COORD <= p.y <= MAX_COORD
}

/// Room for a kerned run: the cursor can advance by a full cell or a dot
/// per byte and still stay well inside the coordinate bound.
pub open spec fn kerned_room(loc: Point, len: nat) -> bool {
    &&& -1000000 <= loc.x
    &&& loc.x + 142 * len <= 1000000
    &&& -1000000 <= loc.y <= 1000000
}

/// The glyph operations for `s` drawn left to right from `loc`.
pub open spec fn text_ops(id: FontId, loc: Point, s: Seq<u8>) -> Seq<DrawOp> {
    Seq::new(
        s.len(),
        |i: int|
            DrawOp::Glyph {
                font: id,
                x: (loc.x + i * spec_char_width(id)) as i32,
                y: loc.y,
                ch: s[i],
            },
    )
}

/// The decimal-point dot for a font, sitting on the font's baseline.
pub open spec fn dot_op(id: FontId, loc: Point) -> DrawOp {
    DrawOp::Dot {
        x: loc.x,
        y: (loc.y + spec_char_height(id) - spec_dot_diameter(id) - 4) as i32,
        diameter: spec_dot_diameter(id) as i32,
    }
}

/// Index of the first `'.'` in `s`, if any.
pub open spec fn find_dot(s: Seq<u8>) -> Option<int>
    decreases s.len(),
{
    if s.len() == 0 {
        None
    } else if s[0] == 46 {
        Some(0)
    } else {
        match find_dot(s.drop_first()) {
            Some(i) => Some(i + 1),
            None => None,
        }
    }
}

/// `find_dot` returns the first `'.'` position, or `None` when there is none.
pub proof fn lemma_find_dot(s: Seq<u8>)
    ensures
        match find_dot(s) {
            Some(i) => 0 <= i < s.len() && s[i] == 46 && (forall|j: int| 0 <= j < i ==> s[j] != 46),
            None => forall|j: int| 0 <= j < s.len() ==> s[j] != 46,
        },
    decreases s.len(),
{
    if s.len() > 0 && s[0] != 46 {
        let t = s.drop_first();
        lemma_find_dot(t);
        match find_dot(t) {
            Some(i) => {
                assert(find_dot(s) == Some(i + 1));
                assert(s[i + 1] == t[i]);
                assert forall|j: int| 0 <= j < i + 1 implies s[j] != 46 by {
                    if j > 0 {
                        assert(t[j - 1] == s[j]);
                        assert(t[j - 1] != 46);
                    }
                }
            },
            None => {
                assert forall|j: int| 0 <= j < s.len() implies s[j] != 46 by {
                    if j > 0 {
                        assert(t[j - 1] == s[j]);
                        assert(t[j - 1] != 46);
                    }
                }
            },
        }
    }
}

/// `find_dot` finds a `'.'` that is first in the sequence.
pub proof fn lemma_find_dot_complete(s: Seq<u8>, d: int)
    requires
        0 <= d < s.len(),
        s[d] == 46,
        forall|j: int| 0 <= j < d ==> s[j] != 46,
    ensures
        find_dot(s) == Some(d),
    decreases s.len(),
{
    if d > 0 {
        lemma_find_dot_complete(s.drop_first(), d - 1);
    }
}

/// The cursor after a segment of `i` glyphs.
pub open spec fn seg_end(id: FontId, loc: Point, i: int) -> Point {
    Point { x: (loc.x + i * spec_char_width(id)) as i32, y: loc.y }
}

/// The cursor after a segment of `i` glyphs and one decimal-point dot.
pub open spec fn after_dot(id: FontId, loc: Point, i: int) -> Point {
    Point { x: (loc.x + i * spec_char_width(id) + spec_dot_diameter(id)) as i32, y: loc.y }
}

/// The operations for text with decimal points: glyph runs split on `'.'`,
/// each dot drawn as a circle with its own narrow advance.
pub open spec fn kerned_ops(id: FontId, loc: Point, s: Seq<u8>) -> Seq<DrawOp>
    decreases s.len(),
{
    match find_dot(s) {
        Some(i) => if 0 <= i < s.len() {
            text_ops(id, loc, s.take(i)) + seq![dot_op(id, seg_end(id, loc, i))] + kerned_ops(
                id,
                after_dot(id, loc, i),
                s.skip(i + 1),
            )
        } else {
            Seq::empty()
        },
        None => text_ops(id, loc, s),
    }
}

/// The cursor position after drawing kerned text.
pub open spec fn kerned_end(id: FontId, loc: Point, s: Seq<u8>) -> Point
    decreases s.len(),
{
    match find_dot(s) {
        Some(i) => if 0 <= i < s.len() {
            kerned_end(id, after_dot(id, loc, i), s.skip(i + 1))
        } else {
            loc
        },
        None => Point { x: (loc.x + s.len() * spec_char_width(id)) as i32, y: loc.y },
    }
}

/// The operations a field render issues: one glyph per dirty cell, at that
/// cell's position; clean cells are skipped.
pub open spec fn field_ops(id: FontId, loc: Point, chars: Seq<u8>, dirty: Seq<bool>) -> Seq<DrawOp>
    decreases chars.len(),
{
    if chars.len() == 0 || chars.len() != dirty.len() {
        Seq::empty()
    } else {
        field_ops(id, loc, chars.drop_last(), dirty.drop_last()) + (if dirty.last() {
            seq![
                DrawOp::Glyph {
                    font: id,
                    x: (loc.x + (chars.len() - 1) * spec_char_width(id)) as i32,
                    y: loc.y,
                    ch: chars.last(),
                },
            ]
        } else {
            Seq::empty()
        })
    }
}

/// A field whose cells are all dirty is repainted in full: the render
/// issues exactly one glyph per cell.
pub proof fn lemma_full_repaint(id: FontId, loc: Point, chars: Seq<u8>, dirty: Seq<bool>)
    requires
        chars.len() == dirty.len(),
        forall|i: int| 0 <= i < dirty.len() ==> dirty[i],
    ensures
        field_ops(id, loc, chars, dirty).len() == chars.len(),
    decreases chars.len(),
{
    if chars.len() > 0 {
        lemma_full_repaint(id, loc, chars.drop_last(), dirty.drop_last());
    }
}

/// A clean field issues no draw operations at all.
pub proof fn lemma_clean_field_no_ops(id: FontId, loc: Point, chars: Seq<u8>, dirty: Seq<bool>)
    requires
        chars.len() == dirty.len(),
        forall|i: int| 0 <= i < dirty.len() ==> !dirty[i],
    ensures
        field_ops(id, loc, chars, dirty).len() == 0,
    decreases chars.len(),
{
    if chars.len() > 0 {
        lemma_clean_field_no_ops(id, loc, chars.drop_last(), dirty.drop_last());
    }
}

/// The dirty mask after new content is diffed against a field: a cell stays
/// dirty if it already was, or becomes dirty where the byte changed.
pub open spec fn diff_dirty(chars: Seq<u8>, dirty: Seq<bool>, new: Seq<u8>) -> Seq<bool> {
    Seq::new(dirty.len(), |i: int| dirty[i] || chars[i] != new[i])
}

/// Writing content a field already shows marks nothing dirty: once a field
/// is rendered (all cells clean), rewriting the same bytes leaves every
/// cell clean, so the renderer issues no draw operations for it.
pub proof fn lemma_rewrite_same_content_clean(c: Seq<u8>)
    ensures
        diff_dirty(c, Seq::new(c.len(), |i: int| false), c) =~= Seq::new(
            c.len(),
            |i: int| false,
        ),
{
}

/// A fixed-width line of character cells with a per-cell dirty mask.
///
/// Invariant: a cell's dirty bit is set iff its buffered byte differs from
/// what was last drawn; only the renderer clears dirty bits.
pub struct DisplayField<const W: usize> {
    buf: Vec<u8>,
    dirty: Vec<bool>,
}

impl<const W: usize> DisplayField<W> {
    /// The buffered character of each cell.
    pub closed spec fn chars(&self) -> Seq<u8> {
        self.buf@
    }

    /// The dirty mask.
    pub closed spec fn dirty_mask(&self) -> Seq<bool> {
        self.dirty@
    }

    pub open spec fn wf(&self) -> bool {
        self.chars().len() == W && self.dirty_mask().len() == W
    }

    /// A fresh field: all spaces, and every cell dirty, so the first render
    /// repaints the whole field.
    pub fn new() -> (r: DisplayField<W>)
        ensures
            r.wf(),
            r.chars() == Seq::new(W as nat, |i: int| 32u8),
            r.dirty_mask() == Seq::new(W as nat, |i: int| true),
    {
        let mut buf: Vec<u8> = Vec::new();
        let mut dirty: Vec<bool> = Vec::new();
        let mut i: usize = 0;
        while i < W
            invariant
                i <= W,
                buf@ =~= Seq::new(i as nat, |j: int| 32u8),
                dirty@ =~= Seq::new(i as nat, |j: int| true),
            decreases W - i,
        {
            buf.push(32);
            dirty.push(true);
            i = i + 1;
        }
        proof {
            assert(buf@ =~= Seq::new(W as nat, |j: int| 32u8));
            assert(dirty@ =~= Seq::new(W as nat, |j: int| true));
        }
        DisplayField { buf, dirty }
    }

    /// A fresh field showing `s` followed by spaces.
    pub fn from_str(s: &[u8]) -> (r: DisplayField<W>)
        requires
            s@.len() <= W,
        ensures
            r.wf(),
            r.chars() == s@ + Seq::new((W - s@.len()) as nat, |i: int| 32u8),
            r.dirty_mask() == Seq::new(W as nat, |i: int| true),
    {
        let mut f = DisplayField::<W>::new();
        let mut padded: Vec<u8> = Vec::new();
        let mut i: usize = 0;
        while i < s.len()
            invariant
                i <= s@.len(),
                s@.len() <= W,
                padded@ =~= s@.take(i as int),
            decreases s@.len() - i,
        {
            padded.push(s[i]);
            i = i + 1;
        }
        while i < W
            invariant
                s@.len() <= i <= W,
                padded@ =~= s@ + Seq::new((i - s@.len()) as nat, |j: int| 32u8),
            decreases W - i,
        {
            padded.push(32);
            i = i + 1;
        }
        f.update_from(padded.as_slice());
        proof {
            assert(f.dirty_mask() =~= Seq::new(W as nat, |j: int| true));
        }
        f
    }

    /// A scratch buffer of the field's width, for formatting into.
    pub fn tmpbuf(&self) -> (r: Vec<u8>)
        ensures
            r@ == Seq::new(W as nat, |i: int| 0u8),
    {
        let mut buf: Vec<u8> = Vec::new();
        let mut i: usize = 0;
        while i < W
            invariant
                i <= W,
                buf@ =~= Seq::new(i as nat, |j: int| 0u8),
            decreases W - i,
        {
            buf.push(0);
            i = i + 1;
        }
        proof {
            assert(buf@ =~= Seq::new(W as nat, |j: int| 0u8));
        }
        buf
    }

    /// The cell's character if it needs redrawing, else `None`.
    pub fn getdirtychar(&self, i: usize) -> (r: Option<u8>)
        requires
            self.wf(),
            i < W,
        ensures
            r == (if self.dirty_mask()[i as int] {
                Some(self.chars()[i as int])
            } else {
                None::<u8>
            }),
    {
        if self.dirty[i] {
            Some(self.buf[i])
        } else {
            None
        }
    }

    /// Diffs new content byte-for-byte against the buffer: only cells whose
    /// byte changed become dirty, already-dirty cells stay dirty.
    pub fn update_from(&mut self, buf: &[u8])
        requires
            old(self).wf(),
            buf@.len() == W,
        ensures
            final(self).wf(),
            final(self).chars() == buf@,
            final(self).dirty_mask() == diff_dirty(
                old(self).chars(),
                old(self).dirty_mask(),
                buf@,
            ),
    {
        let ghost chars0 = self.buf@;
        let ghost dirty0 = self.dirty@;
        let mut i: usize = 0;
        while i < W
            invariant
                i <= W,
                buf@.len() == W,
                chars0.len() == W,
                dirty0.len() == W,
                self.buf@.len() == W,
                self.dirty@.len() == W,
                forall|j: int| i <= j < W ==> self.buf@[j] == chars0[j],
                forall|j: int| i <= j < W ==> self.dirty@[j] == dirty0[j],
                forall|j: int| 0 <= j < i ==> self.buf@[j] == buf@[j],
                forall|j: int|
                    0 <= j < i ==> self.dirty@[j] == (dirty0[j] || chars0[j] != buf@[j]),
            decreases W - i,
        {
            if self.buf[i] != buf[i] {
                self.buf.set(i, buf[i]);
                self.dirty.set(i, true);
            }
            i = i + 1;
        }
        proof {
            assert(self.buf@ =~= buf@);
            assert(self.dirty@ =~= diff_dirty(chars0, dirty0, buf@));
            assert(chars0 == old(self).chars());
            assert(dirty0 == old(self).dirty_mask());
        }
    }

    /// Blanks the field (diffed like any other content).
    pub fn clear(&mut self)
        requires
            old(self).wf(),
        ensures
            final(self).wf(),
            final(self).chars() == Seq::new(W as nat, |i: int| 32u8),
            final(self).dirty_mask() == diff_dirty(
                old(self).chars(),
                old(self).dirty_mask(),
                Seq::new(W as nat, |i: int| 32u8),
            ),
    {
        let mut spaces: Vec<u8> = Vec::new();
        let mut i: usize = 0;
        while i < W
            invariant
                i <= W,
                spaces@ =~= Seq::new(i as nat, |j: int| 32u8),
            decreases W - i,
        {
            spaces.push(32);
            i = i + 1;
        }
        proof {
            assert(spaces@ =~= Seq::new(W as nat, |j: int| 32u8));
        }
        self.update_from(spaces.as_slice());
    }

    /// Marks every cell clean; called by the renderer alone, after drawing.
    pub fn clear_dirty(&mut self)
        requires
            old(self).wf(),
        ensures
            final(self).wf(),
            final(self).chars() == old(self).chars(),
            final(self).dirty_mask() == Seq::new(W as nat, |i: int| false),
    {
        let mut i: usize = 0;
        while i < W
            invariant
                i <= W,
                self.buf@ == old(self).buf@,
                self.dirty@.len() == W,
                forall|j: int| 0 <= j < i ==> self.dirty@[j] == false,
                forall|j: int| i <= j < W ==> self.dirty@[j] == old(self).dirty@[j],
            decreases W - i,
        {
            self.dirty.set(i, false);
            i = i + 1;
        }
        proof {
            assert(self.dirty@ =~= Seq::new(W as nat, |j: int| false));
        }
    }
}

/// A drawing handle for one font: all its methods append draw operations
/// and advance a cursor by that font's metrics.
#[derive(Clone, Copy, PartialEq, Eq, Structural, Debug)]
pub struct Font {
    pub id: FontId,
}

impl Font {
    pub fn char_width(&self) -> (r: i32)
        ensures
            r == spec_char_width(self.id),
    {
        match self.id {
            FontId::Small => 12,
            FontId::Med => 16,
            FontId::MedDigits => 60,
            FontId::BigDigits => 120,
        }
    }

    pub fn char_height(&self) -> (r: i32)
        ensures
            r == spec_char_height(self.id),
    {
        match self.id {
            FontId::Small => 22,
            FontId::Med => 29,
            FontId::MedDigits => 78,
            FontId::BigDigits => 156,
        }
    }

    /// The pixel position of grid cell (x, y) in this font, inside a small
    /// fixed margin.
    pub fn char_point(&self, x: i32, y: i32) -> (r: Point)
        requires
            0 <= x <= 1000,
            0 <= y <= 1000,
        ensures
            r.x == 4 + x * spec_char_width(self.id),
            r.y == 10 + y * spec_char_height(self.id),
    {
        Point { x: 4 + x * self.char_width(), y: 10 + y * self.char_height() }
    }

    /// Appends one glyph per byte of `content`, left to right from `loc`,
    /// and returns the cursor after the text.
    pub fn write_str(&self, ops: &mut Vec<DrawOp>, loc: Point, content: &[u8]) -> (r: Point)
        requires
            coord_ok(loc),
            content@.len() <= MAX_TEXT,
        ensures
            final(ops)@ == old(ops)@ + text_ops(self.id, loc, content@),
            r == (Point {
                x: (loc.x + content@.len() * spec_char_width(self.id)) as i32,
                y: loc.y,
            }),
    {
        let ghost ops0 = ops@;
        let w = self.char_width();
        let mut i: usize = 0;
        let mut x: i32 = loc.x;
        while i < content.len()
            invariant
                i <= content@.len(),
                content@.len() <= MAX_TEXT,
                coord_ok(loc),
                w == spec_char_width(self.id),
                x == loc.x + i * w,
                ops@ =~= ops0 + text_ops(self.id, loc, content@.take(i as int)),
            decreases content@.len() - i,
        {
            ops.push(DrawOp::Glyph { font: self.id, x, y: loc.y, ch: content[i] });
            proof {
                assert(ops@ =~= ops0 + text_ops(self.id, loc, content@.take(i + 1)));
            }
            x = x + w;
            i = i + 1;
        }
        proof {
            assert(content@.take(content@.len() as int) =~= content@);
        }
        Point { x, y: loc.y }
    }

    /// Appends one glyph and returns the cursor after it.
    pub fn write_char(&self, ops: &mut Vec<DrawOp>, loc: Point, c: u8) -> (r: Point)
        requires
            coord_ok(loc),
        ensures
            final(ops)@ == old(ops)@.push(
                DrawOp::Glyph { font: self.id, x: loc.x, y: loc.y, ch: c },
            ),
            r == (Point { x: (loc.x + spec_char_width(self.id)) as i32, y: loc.y }),
    {
        ops.push(DrawOp::Glyph { font: self.id, x: loc.x, y: loc.y, ch: c });
        Point { x: loc.x + self.char_width(), y: loc.y }
    }

    /// Appends the decimal-point dot for this font and returns the cursor
    /// after its narrow advance. The digit fonts have no '.' glyph, so the
    /// point is a filled circle near the baseline.
    pub fn write_kerned_dp(&self, ops: &mut Vec<DrawOp>, loc: Point) -> (r: Point)
        requires
            coord_ok(loc),
        ensures
            final(ops)@ == old(ops)@.push(dot_op(self.id, loc)),
            r == (Point { x: (loc.x + spec_dot_diameter(self.id)) as i32, y: loc.y }),
    {
        let char_height = self.char_height();
        let diam = char_height / 7;
        ops.push(
            DrawOp::Dot { x: loc.x, y: loc.y + char_height - diam - 4, diameter: diam },
        );
        Point { x: loc.x + diam, y: loc.y }
    }

    /// Writes text in which every `'.'` is drawn as a decimal-point dot
    /// with its own kerning, digit runs in between; returns the cursor
    /// after the whole run.
    pub fn write_kerned_str(&self, ops: &mut Vec<DrawOp>, loc: Point, content: &[u8]) -> (r: Point)
        requires
            kerned_room(loc, content@.len()),
            content@.len() <= MAX_TEXT,
        ensures
            final(ops)@ == old(ops)@ + kerned_ops(self.id, loc, content@),
            r == kerned_end(self.id, loc, content@),
        decreases content@.len(),
    {
        let ghost ops0 = ops@;
        let n = content.len();
        let mut d: usize = 0;
        while d < n && content[d] != 46
            invariant
                0 <= d <= n,
                n == content@.len(),
                forall|j: int| 0 <= j < d ==> content@[j] != 46,
            decreases n - d,
        {
            d = d + 1;
        }
        if d < n {
            proof {
                lemma_find_dot_complete(content@, d as int);
            }
            let seg = vstd::slice::slice_subrange(content, 0, d);
            proof {
                assert(coord_ok(loc));
            }
            let cursor = self.write_str(ops, loc, seg);
            proof {
                assert(seg@ =~= content@.take(d as int));
                assert(cursor == seg_end(self.id, loc, d as int));
            }
            let cursor2 = self.write_kerned_dp(ops, cursor);
            proof {
                assert(cursor2 == after_dot(self.id, loc, d as int));
            }
            let rest = vstd::slice::slice_subrange(content, d + 1, n);
            proof {
                assert(rest@ =~= content@.skip(d + 1));
                assert(0 <= (d as int) * spec_char_width(self.id) <= (d as int) * 120)
                    by (nonlinear_arith)
                    requires
                        0 <= d,
                        0 <= spec_char_width(self.id) <= 120,
                ;
                assert(kerned_room(cursor2, rest@.len()));
            }
            let r = self.write_kerned_str(ops, cursor2, rest);
            proof {
                assert(ops@ =~= ops0 + kerned_ops(self.id, loc, content@));
            }
            r
        } else {
            proof {
                lemma_find_dot(content@);
                if find_dot(content@) is Some {
                    let i = find_dot(content@)->0;
                    assert(content@[i] != 46);
                    assert(false);
                }
            }
            let r = self.write_str(ops, loc, content);
            r
        }
    }

    /// Draws every dirty cell of the field left to right, one fixed cell
    /// advance per cell whether drawn or skipped, then marks the whole
    /// field clean. Dirty bits are cleared here and nowhere else, so a
    /// failed draw can be retried by the caller without re-diffing.
    pub fn render_field<const W: usize>(
        &self,
        ops: &mut Vec<DrawOp>,
        cursor0: Point,
        field: &mut DisplayField<W>,
    ) -> (r: Point)
        requires
            coord_ok(cursor0),
            old(field).wf(),
            W <= MAX_TEXT,
        ensures
            final(field).wf(),
            final(field).chars() == old(field).chars(),
            final(field).dirty_mask() == Seq::new(W as nat, |i: int| false),
            final(ops)@ == old(ops)@ + field_ops(
                self.id,
                cursor0,
                old(field).chars(),
                old(field).dirty_mask(),
            ),
            r == (Point { x: (cursor0.x + W * spec_char_width(self.id)) as i32, y: cursor0.y }),
    {
        let ghost ops0 = ops@;
        let w = self.char_width();
        let mut cursor = cursor0;
        let mut i: usize = 0;
        while i < W
            invariant
                i <= W,
                W <= MAX_TEXT,
                coord_ok(cursor0),
                w == spec_char_width(self.id),
                field.wf(),
                field.chars() == old(field).chars(),
                field.dirty_mask() == old(field).dirty_mask(),
                cursor.x == cursor0.x + i * w,
                cursor.y == cursor0.y,
                ops@ =~= ops0 + field_ops(
                    self.id,
                    cursor0,
                    field.chars().take(i as int),
                    field.dirty_mask().take(i as int),
                ),
            decreases W - i,
        {
            match field.getdirtychar(i) {
                Some(c) => {
                    ops.push(DrawOp::Glyph { font: self.id, x: cursor.x, y: cursor.y, ch: c });
                },
                None => {},
            }
            proof {
                let ci = field.chars().take(i + 1);
                let di = field.dirty_mask().take(i + 1);
                assert(ci.drop_last() =~= field.chars().take(i as int));
                assert(di.drop_last() =~= field.dirty_mask().take(i as int));
                assert(ops@ =~= ops0 + field_ops(self.id, cursor0, ci, di));
            }
            cursor = Point { x: cursor.x + w, y: cursor.y };
            i = i + 1;
        }
        field.clear_dirty();
        proof {
            assert(field.chars().take(W as int) =~= field.chars());
            assert(old(field).dirty_mask().take(W as int) =~= old(field).dirty_mask());
        }
        cursor
    }
}

/// Stateless layout front end: hands out the four fonts and the shared
/// drawing helpers the screens use.
#[derive(Clone, Copy, PartialEq, Eq, Structural, Debug)]
pub struct Layout {
}

impl Layout {
    pub fn new() -> (r: Layout)
        ensures
            r == (Layout {  }),
    {
        Layout {  }
    }

    pub fn font_18(&self) -> (r: Font)
        ensures
            r.id == FontId::Small,
    {
        Font { id: FontId::Small }
    }

    pub fn font_24(&self) -> (r: Font)
        ensures
            r.id == FontId::Med,
    {
        Font { id: FontId::Med }
    }

    pub fn font_78(&self) -> (r: Font)
        ensures
            r.id == FontId::MedDigits,
    {
        Font { id: FontId::MedDigits }
    }

    pub fn font_156(&self) -> (r: Font)
        ensures
            r.id == FontId::BigDigits,
    {
        Font { id: FontId::BigDigits }
    }

    /// Fills the whole drawing area with the background color.
    pub fn clear(&self, ops: &mut Vec<DrawOp>)
        ensures
            final(ops)@ == old(ops)@.push(
                DrawOp::Rect { x: 0, y: 0, width: 480, height: 320, fill_on: false },
            ),
    {
        ops.push(DrawOp::Rect { x: 0, y: 0, width: 480, height: 320, fill_on: false });
    }

    /// Text in the medium font (the field/status font).
    pub fn write_text(&self, ops: &mut Vec<DrawOp>, loc: Point, content: &[u8]) -> (r: Point)
        requires
            coord_ok(loc),
            content@.len() <= MAX_TEXT,
        ensures
            final(ops)@ == old(ops)@ + text_ops(FontId::Med, loc, content@),
            r == (Point { x: (loc.x + content@.len() * spec_char_width(FontId::Med)) as i32, y: loc.y }),
    {
        self.font_24().write_str(ops, loc, content)
    }

    /// Kerned numeric text in the medium digit font.
    pub fn write_med_text(&self, ops: &mut Vec<DrawOp>, loc: Point, content: &[u8]) -> (r: Point)
        requires
            kerned_room(loc, content@.len()),
            content@.len() <= MAX_TEXT,
        ensures
            final(ops)@ == old(ops)@ + kerned_ops(FontId::MedDigits, loc, content@),
            r == kerned_end(FontId::MedDigits, loc, content@),
    {
        self.font_78().write_kerned_str(ops, loc, content)
    }

    /// One digit in the big digit font.
    pub fn write_big_char(&self, ops: &mut Vec<DrawOp>, loc: Point, c: u8) -> (r: Point)
        requires
            coord_ok(loc),
        ensures
            final(ops)@ == old(ops)@.push(
                DrawOp::Glyph { font: FontId::BigDigits, x: loc.x, y: loc.y, ch: c },
            ),
            r == (Point { x: (loc.x + spec_char_width(FontId::BigDigits)) as i32, y: loc.y }),
    {
        self.font_156().write_char(ops, loc, c)
    }

    /// The decimal point between big digits.
    pub fn write_big_dp(&self, ops: &mut Vec<DrawOp>, loc: Point) -> (r: Point)
        requires
            coord_ok(loc),
        ensures
            final(ops)@ == old(ops)@.push(dot_op(FontId::BigDigits, loc)),
            r == (Point { x: (loc.x + spec_dot_diameter(FontId::BigDigits)) as i32, y: loc.y }),
    {
        self.font_156().write_kerned_dp(ops, loc)
    }

    /// Renders a field in the medium font.
    pub fn render_field<const W: usize>(
        &self,
        ops: &mut Vec<DrawOp>,
        cursor0: Point,
        field: &mut DisplayField<W>,
    ) -> (r: Point)
        requires
            coord_ok(cursor0),
            old(field).wf(),
            W <= MAX_TEXT,
        ensures
            final(field).wf(),
            final(field).chars() == old(field).chars(),
            final(field).dirty_mask() == Seq::new(W as nat, |i: int| false),
            final(ops)@ == old(ops)@ + field_ops(
                FontId::Med,
                cursor0,
                old(field).chars(),
                old(field).dirty_mask(),
            ),
            r == (Point {
                x: (cursor0.x + W * spec_char_width(FontId::Med)) as i32,
                y: cursor0.y,
            }),
    {
        self.font_24().render_field(ops, cursor0, field)
    }

    /// The pixel position of grid cell (x, y) in the medium font.
    pub fn char_point(&self, x: i32, y: i32) -> (r: Point)
        requires
            0 <= x <= 1000,
            0 <= y <= 1000,
        ensures
            r.x == 4 + x * spec_char_width(FontId::Med),
            r.y == 10 + y * spec_char_height(FontId::Med),
    {
        self.font_24().char_point(x, y)
    }
}

} // verus!
