//! Geometric classification of completed tracks into directives.
use vstd::prelude::*;
use crate::direction::Direction;
use crate::finger::{
    Finger, TrackView, spec_dist2, track_delta, track_end, track_is_empty, track_magnitude,
    track_start, dist2, lemma_square_bound,
};

verus! {

/// Screen size and thresholds, fixed for the life of the process.
#[derive(Clone, Copy, Debug, PartialEq, Eq, Structural)]
pub struct Geometry {
    pub screen_width: i32,
    pub screen_height: i32,
    pub edge_tolerance: i32,
    pub min_distance: i32,
}

pub open spec fn abs(v: int) -> int {
    if v < 0 {
        -v
    } else {
        v
    }
}

/// Dot product of two vectors.
pub open spec fn dot(a: (int, int), b: (int, int)) -> int {
    a.0 * b.0 + a.1 * b.1
}

/// The start position in the frame of the current orientation: x and y swap in portrait.
pub open spec fn frame_start(start: (int, int), portrait: bool) -> (int, int) {
    if portrait {
        (start.1, start.0)
    } else {
        start
    }
}

/// Width and height in the frame of the current orientation.
pub open spec fn frame_size(g: Geometry, portrait: bool) -> (int, int) {
    if portrait {
        (g.screen_height as int, g.screen_width as int)
    } else {
        (g.screen_width as int, g.screen_height as int)
    }
}

/// Whether the motion counts as vertical in the frame of the current orientation.
pub open spec fn frame_vertical(delta: (int, int), portrait: bool) -> bool {
    (abs(delta.1) > abs(delta.0)) != portrait
}

/// Directive of a single track with the given start and motion: an edge of origin
/// on the dominant axis first, else the sign of the motion on that axis.
pub open spec fn directive_one(
    start: (int, int),
    delta: (int, int),
    g: Geometry,
    portrait: bool,
) -> Direction {
    let s = frame_start(start, portrait);
    let size = frame_size(g, portrait);
    let tol = g.edge_tolerance as int;
    if frame_vertical(delta, portrait) {
        if s.1 < tol {
            Direction::FromTop
        } else if s.1 > size.1 - tol {
            Direction::FromBottom
        } else if delta.1 > 0 {
            Direction::Down
        } else {
            Direction::Up
        }
    } else {
        if s.0 < tol {
            Direction::FromLeft
        } else if s.0 > size.0 - tol {
            Direction::FromRight
        } else if delta.0 > 0 {
            Direction::Right
        } else {
            Direction::Left
        }
    }
}

pub open spec fn spec_classify_one(t: TrackView, g: Geometry, portrait: bool) -> Direction {
    directive_one(track_start(t), track_delta(t), g, portrait)
}

/// Directive of two tracks: pinch or spread when their motions oppose each other,
/// else the directive of the first track.
pub open spec fn spec_classify_two(a: TrackView, b: TrackView, g: Geometry, portrait: bool) -> Direction {
    if dot(track_delta(a), track_delta(b)) < 0 {
        if spec_dist2(track_end(a), track_end(b)) < spec_dist2(track_start(a), track_start(b)) {
            Direction::Pinch
        } else {
            Direction::Spread
        }
    } else {
        spec_classify_one(a, g, portrait)
    }
}

/// The pair of indices, among (0, 1), (0, 2) and (1, 2), whose points lie farthest
/// apart; of equally far pairs the first in that order.
pub open spec fn outer_pair(a: (int, int), b: (int, int), c: (int, int)) -> (int, int) {
    let d01 = spec_dist2(a, b);
    let d02 = spec_dist2(a, c);
    let d12 = spec_dist2(b, c);
    if d01 >= d02 && d01 >= d12 {
        (0, 1)
    } else if d02 >= d12 {
        (0, 2)
    } else {
        (1, 2)
    }
}

/// The distance between the points of a pair of indices into three points.
pub open spec fn pair_dist2(p: Seq<(int, int)>, pair: (int, int)) -> int {
    spec_dist2(p[pair.0], p[pair.1])
}

/// What a sequence of tracks holds.
pub open spec fn track_views(ts: Seq<Finger>) -> Seq<TrackView> {
    ts.map_values(|f: Finger| f@)
}

/// Indices, in increasing order, of the tracks that received any sample.
pub open spec fn touched(ts: Seq<TrackView>) -> Seq<int>
    decreases ts.len(),
{
    if ts.len() == 0 {
        Seq::empty()
    } else {
        let r = touched(ts.drop_last());
        if track_is_empty(ts.last()) {
            r
        } else {
            r.push(ts.len() - 1)
        }
    }
}

/// Whether some track moved farther than the minimum distance.
pub open spec fn moved(ts: Seq<TrackView>, min_distance: int) -> bool {
    exists|i: int| 0 <= i < ts.len() && track_magnitude(ts[i]) > min_distance * min_distance
}

/// The directive of a completed gesture: none for a tap, where no track moved far
/// enough, and none for a finger count outside 1 to 3. Three fingers are reduced
/// to the two whose starts lie farthest apart.
pub open spec fn spec_gesture(ts: Seq<TrackView>, g: Geometry, portrait: bool) -> Option<Direction> {
    let t = touched(ts);
    if !moved(ts, g.min_distance as int) {
        None
    } else if t.len() == 1 {
        Some(spec_classify_one(ts[t[0]], g, portrait))
    } else if t.len() == 2 {
        Some(spec_classify_two(ts[t[0]], ts[t[1]], g, portrait))
    } else if t.len() == 3 {
        let p = outer_pair(track_start(ts[t[0]]), track_start(ts[t[1]]), track_start(ts[t[2]]));
        Some(spec_classify_two(ts[t[p.0]], ts[t[p.1]], g, portrait))
    } else {
        None
    }
}

/// The gesture key of a completed gesture, if any.
pub open spec fn spec_gesture_key(ts: Seq<TrackView>, g: Geometry, portrait: bool) -> Option<Seq<char>> {
    match spec_gesture(ts, g, portrait) {
        Some(d) => Some(d.key(touched(ts).len())),
        None => None,
    }
}

/// The indices of touched tracks are increasing and lie within the sequence.
pub proof fn lemma_touched_in_range(ts: Seq<TrackView>)
    ensures
        touched(ts).len() <= ts.len(),
        forall|k: int| 0 <= k < touched(ts).len() ==> 0 <= #[trigger] touched(ts)[k] < ts.len(),
        forall|k: int, l: int| 0 <= k < l < touched(ts).len() ==> touched(ts)[k] < touched(ts)[l],
        forall|k: int| 0 <= k < touched(ts).len() ==> !track_is_empty(ts[#[trigger] touched(ts)[k]]),
    decreases ts.len(),
{
    if ts.len() > 0 {
        lemma_touched_in_range(ts.drop_last());
        assert(forall|i: int| 0 <= i < ts.len() - 1 ==> ts.drop_last()[i] == ts[i]);
    }
}

/// A gesture in which no track moved farther than the minimum distance is a tap,
/// and produces no key.
pub proof fn lemma_tap_gives_no_key(ts: Seq<TrackView>, g: Geometry, portrait: bool)
    requires
        forall|i: int|
            0 <= i < ts.len() ==> track_magnitude(#[trigger] ts[i]) <= g.min_distance as int
                * g.min_distance as int,
    ensures
        spec_gesture(ts, g, portrait) is None,
        spec_gesture_key(ts, g, portrait) is None,
{
}

/// Indices of the tracks that received any sample, in increasing order.
pub fn touched_indices(tracks: &Vec<Finger>) -> (r: Vec<usize>)
    ensures
        r@.len() == touched(track_views(tracks@)).len(),
        forall|k: int| 0 <= k < r@.len() ==> r@[k] as int == touched(track_views(tracks@))[k],
{
    let mut r: Vec<usize> = Vec::new();
    let mut i: usize = 0;
    while i < tracks.len()
        invariant
            i <= tracks@.len(),
            r@.len() == touched(track_views(tracks@).subrange(0, i as int)).len(),
            forall|k: int|
                0 <= k < r@.len() ==> r@[k] as int == touched(
                    track_views(tracks@).subrange(0, i as int),
                )[k],
        decreases tracks@.len() - i,
    {
        let ghost before = track_views(tracks@).subrange(0, i as int);
        let ghost after = track_views(tracks@).subrange(0, i + 1);
        assert(after.drop_last() =~= before);
        if !tracks[i].is_empty() {
            r.push(i);
        }
        i += 1;
    }
    assert(track_views(tracks@).subrange(0, tracks@.len() as int) =~= track_views(tracks@));
    r
}

/// Whether some track moved farther than the minimum distance.
pub fn moved_enough(tracks: &Vec<Finger>, min_distance: i32) -> (r: bool)
    ensures
        r == moved(track_views(tracks@), min_distance as int),
{
    proof {
        lemma_square_bound(min_distance as int);
    }
    let min2 = (min_distance as i128) * (min_distance as i128);
    let mut i: usize = 0;
    while i < tracks.len()
        invariant
            i <= tracks@.len(),
            min2 == min_distance as int * min_distance as int,
            forall|j: int|
                0 <= j < i ==> track_magnitude(#[trigger] track_views(tracks@)[j]) <= min2,
        decreases tracks@.len() - i,
    {
        if tracks[i].magnitude() > min2 {
            assert(track_magnitude(track_views(tracks@)[i as int]) > min2);
            return true;
        }
        i += 1;
    }
    false
}

/// The directive of a completed gesture made of these tracks, if any.
pub fn gesture(tracks: &Vec<Finger>, g: &Geometry, portrait: bool) -> (r: Option<Direction>)
    ensures
        r == spec_gesture(track_views(tracks@), *g, portrait),
{
    let ghost ts = track_views(tracks@);
    proof {
        lemma_touched_in_range(ts);
    }
    if !moved_enough(tracks, g.min_distance) {
        return None;
    }
    let t = touched_indices(tracks);
    if t.len() == 1 {
        Some(classify_one(&tracks[t[0]], g, portrait))
    } else if t.len() == 2 {
        Some(classify_two(&tracks[t[0]], &tracks[t[1]], g, portrait))
    } else if t.len() == 3 {
        let (i, j) = reduce_three(&tracks[t[0]], &tracks[t[1]], &tracks[t[2]]);
        Some(classify_two(&tracks[t[i]], &tracks[t[j]], g, portrait))
    } else {
        None
    }
}

/// The gesture key `"{fingers}_{directive}"` of a completed gesture, if any.
pub fn gesture_key(tracks: &Vec<Finger>, g: &Geometry, portrait: bool) -> (r: Option<String>)
    ensures
        r is Some <==> spec_gesture_key(track_views(tracks@), *g, portrait) is Some,
        r is Some ==> r->Some_0@ == spec_gesture_key(track_views(tracks@), *g, portrait)->Some_0,
{
    match gesture(tracks, g, portrait) {
        Some(d) => {
            let t = touched_indices(tracks);
            Some(d.to_key(t.len()))
        },
        None => None,
    }
}

/// Classifies a single track.
pub fn classify_one(t: &Finger, g: &Geometry, portrait: bool) -> (r: Direction)
    ensures
        r == spec_classify_one(t@, *g, portrait),
{
    let (x, y) = t.start();
    let (sx, sy, w, h) = if portrait {
        (y as i64, x as i64, g.screen_height as i64, g.screen_width as i64)
    } else {
        (x as i64, y as i64, g.screen_width as i64, g.screen_height as i64)
    };
    let tol = g.edge_tolerance as i64;
    let (dx, dy) = t.delta();
    let adx = if dx < 0 { -dx } else { dx };
    let ady = if dy < 0 { -dy } else { dy };
    if (ady > adx) != portrait {
        if sy < tol {
            Direction::FromTop
        } else if sy > h - tol {
            Direction::FromBottom
        } else if dy > 0 {
            Direction::Down
        } else {
            Direction::Up
        }
    } else {
        if sx < tol {
            Direction::FromLeft
        } else if sx > w - tol {
            Direction::FromRight
        } else if dx > 0 {
            Direction::Right
        } else {
            Direction::Left
        }
    }
}

/// Classifies two tracks: pinch or spread when they move against each other,
/// else a swipe in the direction of the first.
pub fn classify_two(a: &Finger, b: &Finger, g: &Geometry, portrait: bool) -> (r: Direction)
    ensures
        r == spec_classify_two(a@, b@, *g, portrait),
{
    let (ax, ay) = a.delta();
    let (bx, by) = b.delta();
    proof {
        lemma_product_bound(ax as int, bx as int);
        lemma_product_bound(ay as int, by as int);
    }
    let d = (ax as i128) * (bx as i128) + (ay as i128) * (by as i128);
    if d < 0 {
        let sdist = dist2(a.start(), b.start());
        let edist = dist2(a.end(), b.end());
        if edist < sdist {
            Direction::Pinch
        } else {
            Direction::Spread
        }
    } else {
        classify_one(a, g, portrait)
    }
}

/// Picks, of three tracks, the two whose starts lie farthest apart, as a pair of
/// indices in increasing order; of equally far pairs the one with the lowest indices.
pub fn reduce_three(t0: &Finger, t1: &Finger, t2: &Finger) -> (r: (usize, usize))
    ensures
        (r.0 as int, r.1 as int) == outer_pair(track_start(t0@), track_start(t1@), track_start(t2@)),
{
    let d01 = dist2(t0.start(), t1.start());
    let d02 = dist2(t0.start(), t2.start());
    let d12 = dist2(t1.start(), t2.start());
    if d01 >= d02 && d01 >= d12 {
        (0, 1)
    } else if d02 >= d12 {
        (0, 2)
    } else {
        (1, 2)
    }
}

/// A track that starts within the edge tolerance of a border of the current frame,
/// on the axis along which it moves most, is classified by that border, whatever its
/// motion; the top and left borders are tested before the bottom and right ones.
pub proof fn lemma_edge_origin_wins(start: (int, int), delta: (int, int), g: Geometry, portrait: bool)
    ensures
        ({
            let s = frame_start(start, portrait);
            let size = frame_size(g, portrait);
            let tol = g.edge_tolerance as int;
            let d = directive_one(start, delta, g, portrait);
            &&& frame_vertical(delta, portrait) && s.1 < tol ==> d == Direction::FromTop
            &&& frame_vertical(delta, portrait) && tol <= s.1 && s.1 > size.1 - tol
                ==> d == Direction::FromBottom
            &&& !frame_vertical(delta, portrait) && s.0 < tol ==> d == Direction::FromLeft
            &&& !frame_vertical(delta, portrait) && tol <= s.0 && s.0 > size.0 - tol
                ==> d == Direction::FromRight
        }),
{
}

/// The squared distance between two points does not depend on their order.
pub proof fn lemma_dist2_symmetric(p: (int, int), q: (int, int))
    ensures
        spec_dist2(p, q) == spec_dist2(q, p),
{
    assert((q.0 - p.0) * (q.0 - p.0) == (p.0 - q.0) * (p.0 - q.0)) by (nonlinear_arith);
    assert((q.1 - p.1) * (q.1 - p.1) == (p.1 - q.1) * (p.1 - q.1)) by (nonlinear_arith);
}

/// When two tracks move against each other, the pinch or spread decision depends
/// only on whether their ends lie closer together than their starts, not on which
/// of the two comes first.
pub proof fn lemma_pinch_spread_symmetric(a: TrackView, b: TrackView, g: Geometry, portrait: bool)
    requires
        dot(track_delta(a), track_delta(b)) < 0,
    ensures
        spec_classify_two(a, b, g, portrait) == spec_classify_two(b, a, g, portrait),
        spec_classify_two(a, b, g, portrait) == Direction::Pinch
            <==> spec_dist2(track_end(a), track_end(b)) < spec_dist2(track_start(a), track_start(b)),
        spec_classify_two(a, b, g, portrait) == Direction::Spread
            <==> spec_dist2(track_end(a), track_end(b)) >= spec_dist2(track_start(a), track_start(b)),
{
    assert(dot(track_delta(a), track_delta(b)) == dot(track_delta(b), track_delta(a))) by (nonlinear_arith);
    lemma_dist2_symmetric(track_end(a), track_end(b));
    lemma_dist2_symmetric(track_start(a), track_start(b));
}

/// The pair chosen out of three points spans the largest distance of the three
/// pairs, and every pair that comes before it, in the order (0, 1), (0, 2), (1, 2),
/// spans strictly less: ties keep the lowest indices.
pub proof fn lemma_outer_pair_farthest(a: (int, int), b: (int, int), c: (int, int))
    ensures
        ({
            let ps = seq![a, b, c];
            let r = outer_pair(a, b, c);
            &&& r == (0int, 1int) || r == (0int, 2int) || r == (1int, 2int)
            &&& pair_dist2(ps, r) >= spec_dist2(a, b)
            &&& pair_dist2(ps, r) >= spec_dist2(a, c)
            &&& pair_dist2(ps, r) >= spec_dist2(b, c)
            &&& r == (0int, 2int) ==> spec_dist2(a, b) < spec_dist2(a, c)
            &&& r == (1int, 2int) ==> spec_dist2(a, b) < spec_dist2(b, c)
                && spec_dist2(a, c) < spec_dist2(b, c)
        }),
{
    let ps = seq![a, b, c];
    assert(ps[0] == a && ps[1] == b && ps[2] == c);
}

/// A product of two differences of `i32` values fits in 65 bits.
proof fn lemma_product_bound(a: int, b: int)
    requires
        -0x1_0000_0000 <= a <= 0x1_0000_0000,
        -0x1_0000_0000 <= b <= 0x1_0000_0000,
    ensures
        -0x1_0000_0000_0000_0000 <= a * b <= 0x1_0000_0000_0000_0000,
{
    assert(-0x1_0000_0000_0000_0000 <= a * b <= 0x1_0000_0000_0000_0000) by (nonlinear_arith)
        requires
            -0x1_0000_0000 <= a <= 0x1_0000_0000,
            -0x1_0000_0000 <= b <= 0x1_0000_0000,
    ;
}

} // verus!
