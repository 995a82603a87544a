//! One touch's trajectory: its first and its latest position on each axis.
use vstd::prelude::*;

verus! {

/// The first value of a series, or 0 when nothing was recorded.
pub open spec fn first_or_zero(s: Seq<i32>) -> i32 {
    if s.len() == 0 {
        0
    } else {
        s[0]
    }
}

/// The latest value of a series, or 0 when nothing was recorded.
pub open spec fn last_or_zero(s: Seq<i32>) -> i32 {
    if s.len() == 0 {
        0
    } else {
        s.last()
    }
}

/// The series after one more sample: the first sample is kept, the latest replaced.
pub open spec fn recorded(s: Seq<i32>, value: i32) -> Seq<i32> {
    if s.len() < 2 {
        s.push(value)
    } else {
        s.update(1, value)
    }
}

/// Squared Euclidean length of a vector.
pub open spec fn norm2(v: (int, int)) -> int {
    v.0 * v.0 + v.1 * v.1
}

/// Squared Euclidean distance between two points.
pub open spec fn spec_dist2(a: (int, int), b: (int, int)) -> int {
    norm2((b.0 - a.0, b.1 - a.1))
}

/// What a track holds: the samples recorded on the x axis and on the y axis.
pub type TrackView = (Seq<i32>, Seq<i32>);

/// At most two samples per axis.
pub open spec fn track_wf(t: TrackView) -> bool {
    t.0.len() <= 2 && t.1.len() <= 2
}

/// No sample on either axis.
pub open spec fn track_is_empty(t: TrackView) -> bool {
    t.0.len() == 0 && t.1.len() == 0
}

/// Start position, with 0 on an axis that received no sample.
pub open spec fn track_start(t: TrackView) -> (int, int) {
    (first_or_zero(t.0) as int, first_or_zero(t.1) as int)
}

/// Current position, with 0 on an axis that received no sample.
pub open spec fn track_end(t: TrackView) -> (int, int) {
    (last_or_zero(t.0) as int, last_or_zero(t.1) as int)
}

/// Motion from start to current position.
pub open spec fn track_delta(t: TrackView) -> (int, int) {
    (track_end(t).0 - track_start(t).0, track_end(t).1 - track_start(t).1)
}

/// Squared Euclidean length of the motion.
pub open spec fn track_magnitude(t: TrackView) -> int {
    norm2(track_delta(t))
}

/// The track with no samples.
pub open spec fn empty_track() -> TrackView {
    (Seq::empty(), Seq::empty())
}

/// A track with at most one sample on each axis has not moved.
pub proof fn lemma_single_sample_is_still(t: TrackView)
    requires
        t.0.len() <= 1,
        t.1.len() <= 1,
    ensures
        track_delta(t) == (0int, 0int),
        track_magnitude(t) == 0,
{
    assert(track_delta(t) == (0int, 0int));
    assert(0int * 0int + 0int * 0int == 0) by (nonlinear_arith);
}

/// A square of a difference of two `i32` values fits in 65 bits.
pub(crate) proof fn lemma_square_bound(d: int)
    requires
        -0x1_0000_0000 <= d <= 0x1_0000_0000,
    ensures
        0 <= d * d <= 0x1_0000_0000_0000_0000,
{
    assert(0 <= d * d <= 0x1_0000_0000_0000_0000) by (nonlinear_arith)
        requires
            -0x1_0000_0000 <= d <= 0x1_0000_0000,
    ;
}

/// The track of one touch. On each axis at most two samples are kept: the first
/// one, which is the start, and the latest one, which is the current position.
#[derive(Debug)]
pub struct Finger {
    x: Vec<i32>,
    y: Vec<i32>,
}

impl View for Finger {
    type V = TrackView;

    closed spec fn view(&self) -> TrackView {
        (self.x@, self.y@)
    }
}

impl Finger {
    pub open spec fn wf(&self) -> bool {
        track_wf(self@)
    }

    pub open spec fn spec_is_empty(&self) -> bool {
        track_is_empty(self@)
    }

    pub open spec fn spec_start(&self) -> (int, int) {
        track_start(self@)
    }

    pub open spec fn spec_end(&self) -> (int, int) {
        track_end(self@)
    }

    pub open spec fn spec_delta(&self) -> (int, int) {
        track_delta(self@)
    }

    pub open spec fn spec_magnitude(&self) -> int {
        track_magnitude(self@)
    }

    /// A track with no samples.
    pub fn new() -> (r: Finger)
        ensures
            r@ == empty_track(),
    {
        Finger { x: Vec::with_capacity(2), y: Vec::with_capacity(2) }
    }

    /// Records a sample on the x axis.
    pub fn push_x(&mut self, value: i32)
        requires
            old(self).wf(),
        ensures
            final(self).wf(),
            final(self)@.0 == recorded(old(self)@.0, value),
            final(self)@.1 == old(self)@.1,
            last_or_zero(final(self)@.0) == value,
            old(self)@.0.len() > 0 ==> first_or_zero(final(self)@.0) == first_or_zero(old(self)@.0),
            old(self)@.0.len() == 0 ==> first_or_zero(final(self)@.0) == value,
    {
        if self.x.len() < 2 {
            self.x.push(value);
        } else {
            self.x.set(1, value);
        }
    }

    /// Records a sample on the y axis.
    pub fn push_y(&mut self, value: i32)
        requires
            old(self).wf(),
        ensures
            final(self).wf(),
            final(self)@.1 == recorded(old(self)@.1, value),
            final(self)@.0 == old(self)@.0,
            last_or_zero(final(self)@.1) == value,
            old(self)@.1.len() > 0 ==> first_or_zero(final(self)@.1) == first_or_zero(old(self)@.1),
            old(self)@.1.len() == 0 ==> first_or_zero(final(self)@.1) == value,
    {
        if self.y.len() < 2 {
            self.y.push(value);
        } else {
            self.y.set(1, value);
        }
    }

    /// Forgets every sample.
    pub fn clear(&mut self)
        ensures
            final(self)@ == empty_track(),
    {
        self.x.clear();
        self.y.clear();
    }

    /// Whether no sample was recorded on either axis.
    pub fn is_empty(&self) -> (r: bool)
        ensures
            r == self.spec_is_empty(),
    {
        self.x.len() == 0 && self.y.len() == 0
    }

    /// Motion from the start to the current position; (0, 0) with a single sample.
    pub fn delta(&self) -> (r: (i64, i64))
        ensures
            (r.0 as int, r.1 as int) == self.spec_delta(),
    {
        let (sx, sy) = self.start();
        let (ex, ey) = self.end();
        (ex as i64 - sx as i64, ey as i64 - sy as i64)
    }

    /// Position of the first sample, with 0 on an axis that received none.
    pub fn start(&self) -> (r: (i32, i32))
        ensures
            (r.0 as int, r.1 as int) == self.spec_start(),
    {
        let sx = if self.x.len() == 0 { 0 } else { self.x[0] };
        let sy = if self.y.len() == 0 { 0 } else { self.y[0] };
        (sx, sy)
    }

    /// Position of the latest sample, with 0 on an axis that received none.
    pub fn end(&self) -> (r: (i32, i32))
        ensures
            (r.0 as int, r.1 as int) == self.spec_end(),
    {
        let ex = if self.x.len() == 0 { 0 } else { self.x[self.x.len() - 1] };
        let ey = if self.y.len() == 0 { 0 } else { self.y[self.y.len() - 1] };
        (ex, ey)
    }

    /// Squared Euclidean length of the motion.
    pub fn magnitude(&self) -> (r: i128)
        ensures
            r as int == self.spec_magnitude(),
    {
        let (dx, dy) = self.delta();
        proof {
            lemma_square_bound(dx as int);
            lemma_square_bound(dy as int);
        }
        (dx as i128) * (dx as i128) + (dy as i128) * (dy as i128)
    }
}

impl Default for Finger {
    fn default() -> (r: Finger)
        ensures
            r@ == empty_track(),
    {
        Finger::new()
    }
}

/// Squared Euclidean distance between two points.
pub fn dist2(a: (i32, i32), b: (i32, i32)) -> (r: i128)
    ensures
        r as int == spec_dist2((a.0 as int, a.1 as int), (b.0 as int, b.1 as int)),
{
    let dx = b.0 as i128 - a.0 as i128;
    let dy = b.1 as i128 - a.1 as i128;
    proof {
        lemma_square_bound(dx as int);
        lemma_square_bound(dy as int);
    }
    dx * dx + dy * dy
}

} // verus!
