//! The gesture session: the tracks of the touches of one gesture, from the first
//! touch down until every touch has lifted.
use vstd::prelude::*;
use crate::classify::{Geometry, gesture_key, spec_gesture_key, touched, track_views, touched_indices, lemma_touched_in_range};
use crate::finger::{Finger, TrackView, empty_track, recorded, track_wf};

verus! {

/// Event code that selects the slot later position events apply to.
pub const ABS_MT_SLOT: u16 = 0x2f;

/// Event code of an x position.
pub const ABS_MT_POSITION_X: u16 = 0x35;

/// Event code of a y position.
pub const ABS_MT_POSITION_Y: u16 = 0x36;

/// Event code of a touch's tracking id: -1 when the touch lifts, else a new touch.
pub const ABS_MT_TRACKING_ID: u16 = 0x39;

/// A device event, decoded.
#[derive(Clone, Copy, Debug, PartialEq, Eq, Structural)]
pub enum Event {
    SlotSelect(i32),
    PositionX(i32),
    PositionY(i32),
    TouchDown,
    TouchUp,
    Other,
}

pub open spec fn spec_decode(code: u16, value: i32) -> Event {
    if code == ABS_MT_SLOT {
        Event::SlotSelect(value)
    } else if code == ABS_MT_POSITION_X {
        Event::PositionX(value)
    } else if code == ABS_MT_POSITION_Y {
        Event::PositionY(value)
    } else if code == ABS_MT_TRACKING_ID {
        if value == -1 {
            Event::TouchUp
        } else {
            Event::TouchDown
        }
    } else {
        Event::Other
    }
}

/// Decodes a device event from its code and value; unknown codes give `Other`.
pub fn decode(code: u16, value: i32) -> (r: Event)
    ensures
        r == spec_decode(code, value),
{
    if code == ABS_MT_SLOT {
        Event::SlotSelect(value)
    } else if code == ABS_MT_POSITION_X {
        Event::PositionX(value)
    } else if code == ABS_MT_POSITION_Y {
        Event::PositionY(value)
    } else if code == ABS_MT_TRACKING_ID {
        if value == -1 {
            Event::TouchUp
        } else {
            Event::TouchDown
        }
    } else {
        Event::Other
    }
}

/// What a session holds: the slots in the order they were first referenced, the
/// track of each, the slot that position events apply to, and how many touches are
/// down.
pub struct SessionView {
    pub slots: Seq<i32>,
    pub tracks: Seq<TrackView>,
    pub current: i32,
    pub held: int,
}

/// Slots are distinct and each has one well-formed track; the touch count is not
/// negative.
pub open spec fn session_wf(v: SessionView) -> bool {
    &&& v.slots.len() == v.tracks.len()
    &&& forall|i: int, j: int| 0 <= i < j < v.slots.len() ==> v.slots[i] != v.slots[j]
    &&& forall|i: int| 0 <= i < v.tracks.len() ==> track_wf(#[trigger] v.tracks[i])
    &&& 0 <= v.held <= i32::MAX
}

/// The session between gestures.
pub open spec fn idle() -> SessionView {
    SessionView { slots: Seq::empty(), tracks: Seq::empty(), current: 0, held: 0 }
}

/// Position of a slot among the session's slots, or -1.
pub open spec fn slot_index(slots: Seq<i32>, s: i32) -> int {
    if slots.contains(s) {
        choose|i: int| 0 <= i < slots.len() && slots[i] == s
    } else {
        -1
    }
}

/// The session with a track for slot `s`, added empty at the end if it had none.
pub open spec fn with_slot(v: SessionView, s: i32) -> SessionView {
    if v.slots.contains(s) {
        v
    } else {
        SessionView { slots: v.slots.push(s), tracks: v.tracks.push(empty_track()), ..v }
    }
}

pub open spec fn select_slot(v: SessionView, s: i32) -> SessionView {
    SessionView { current: s, ..with_slot(v, s) }
}

/// A sample recorded on the track of the current slot, on the x axis or the y axis.
pub open spec fn record(v: SessionView, on_x: bool, value: i32) -> SessionView {
    let w = with_slot(v, v.current);
    let i = slot_index(w.slots, v.current);
    let t = w.tracks[i];
    let t2 = if on_x {
        (recorded(t.0, value), t.1)
    } else {
        (t.0, recorded(t.1, value))
    };
    SessionView { tracks: w.tracks.update(i, t2), ..w }
}

/// One more touch down; the count stops at `i32::MAX`.
pub open spec fn touch_down(v: SessionView) -> SessionView {
    SessionView { held: if v.held < i32::MAX { v.held + 1 } else { v.held }, ..v }
}

/// One touch lifted; the count does not go below 0.
pub open spec fn touch_up(v: SessionView) -> SessionView {
    SessionView { held: if v.held > 0 { v.held - 1 } else { 0 }, ..v }
}

pub open spec fn apply_event(v: SessionView, ev: Event) -> SessionView {
    match ev {
        Event::SlotSelect(s) => select_slot(v, s),
        Event::PositionX(x) => record(v, true, x),
        Event::PositionY(y) => record(v, false, y),
        Event::TouchDown => touch_down(v),
        Event::TouchUp => touch_up(v),
        Event::Other => v,
    }
}

/// The session after a sequence of raw events, each a code and a value.
pub open spec fn apply_events(v: SessionView, evs: Seq<(u16, i32)>) -> SessionView
    decreases evs.len(),
{
    if evs.len() == 0 {
        v
    } else {
        let (code, value) = evs.last();
        apply_event(apply_events(v, evs.drop_last()), spec_decode(code, value))
    }
}

/// Number of fingers of the gesture: the slots that received any sample.
pub open spec fn spec_finger_count(v: SessionView) -> nat {
    touched(v.tracks).len()
}

/// Every touch has lifted and some track received a sample.
pub open spec fn spec_is_complete(v: SessionView) -> bool {
    v.held == 0 && spec_finger_count(v) > 0
}

/// After a batch of events: once no touch is down, the key of the gesture, if it
/// was complete and classified, and the session back to idle; else no key and the
/// session as it is.
pub open spec fn finish(v: SessionView, g: Geometry, portrait: bool) -> (SessionView, Option<Seq<char>>) {
    if v.held == 0 {
        (idle(), if spec_is_complete(v) { spec_gesture_key(v.tracks, g, portrait) } else { None })
    } else {
        (v, None)
    }
}

/// A reset leaves no slot and no track behind, and a second reset in a row
/// changes nothing: an idle session that ends a batch stays idle and yields no key.
pub proof fn lemma_reset_idempotent(g: Geometry, portrait: bool)
    ensures
        session_wf(idle()),
        idle().slots.len() == 0,
        idle().tracks.len() == 0,
        spec_finger_count(idle()) == 0,
        !spec_is_complete(idle()),
        finish(idle(), g, portrait) == (idle(), None::<Seq<char>>),
{
    assert(touched(idle().tracks) =~= Seq::<int>::empty());
}

/// The state of one gesture.
pub struct GestureSession {
    slots: Vec<i32>,
    tracks: Vec<Finger>,
    current: i32,
    held: i32,
}

impl View for GestureSession {
    type V = SessionView;

    closed spec fn view(&self) -> SessionView {
        SessionView {
            slots: self.slots@,
            tracks: track_views(self.tracks@),
            current: self.current,
            held: self.held as int,
        }
    }
}

impl GestureSession {
    pub open spec fn wf(&self) -> bool {
        session_wf(self@)
    }

    /// An idle session.
    pub fn new() -> (r: GestureSession)
        ensures
            r.wf(),
            r@ == idle(),
    {
        let r = GestureSession { slots: Vec::new(), tracks: Vec::new(), current: 0, held: 0 };
        assert(r@.tracks =~= Seq::<TrackView>::empty());
        r
    }

    /// The tracks, one per slot, in the order the slots were first referenced.
    pub fn tracks(&self) -> (r: &Vec<Finger>)
        ensures
            track_views(r@) == self@.tracks,
    {
        &self.tracks
    }

    /// The slots, in the order they were first referenced.
    pub fn slots(&self) -> (r: &Vec<i32>)
        ensures
            r@ == self@.slots,
    {
        &self.slots
    }

    /// The slot that position events apply to.
    pub fn current_slot(&self) -> (r: i32)
        ensures
            r == self@.current,
    {
        self.current
    }

    /// Number of touches down.
    pub fn held(&self) -> (r: i32)
        ensures
            r as int == self@.held,
    {
        self.held
    }

    /// Position of slot `s` among the slots, if it has a track.
    fn find_slot(&self, s: i32) -> (r: Option<usize>)
        requires
            self.wf(),
        ensures
            r is Some <==> self@.slots.contains(s),
            r is Some ==> r->Some_0 as int == slot_index(self@.slots, s),
    {
        let mut i: usize = 0;
        while i < self.slots.len()
            invariant
                self.wf(),
                i <= self.slots@.len(),
                forall|j: int| 0 <= j < i ==> self.slots@[j] != s,
            decreases self.slots@.len() - i,
        {
            if self.slots[i] == s {
                assert(self@.slots.contains(s));
                let ghost k = slot_index(self@.slots, s);
                assert(self@.slots[k] == s);
                assert(k == i as int);
                return Some(i);
            }
            i += 1;
        }
        None
    }

    /// Gives slot `s` a track if it has none, and returns its position.
    fn ensure_slot(&mut self, s: i32) -> (r: usize)
        requires
            old(self).wf(),
        ensures
            final(self).wf(),
            final(self)@ == with_slot(old(self)@, s),
            r as int == slot_index(final(self)@.slots, s),
            r < final(self)@.tracks.len(),
    {
        match self.find_slot(s) {
            Some(i) => i,
            None => {
                let ghost before = self@;
                self.slots.push(s);
                self.tracks.push(Finger::new());
                let i = self.slots.len() - 1;
                assert(self@.tracks =~= before.tracks.push(empty_track()));
                assert(self@.slots =~= before.slots.push(s));
                assert(self@.slots[i as int] == s);
                assert(forall|j: int| 0 <= j < i ==> self@.slots[j] == before.slots[j]);
                assert(forall|j: int| 0 <= j < i ==> before.slots[j] != s);
                let ghost k = slot_index(self@.slots, s);
                assert(self@.slots.contains(s));
                assert(self@.slots[k] == s);
                assert(k == i as int);
                i
            },
        }
    }

    /// Makes `slot` the slot that position events apply to, giving it a track if
    /// it has none.
    pub fn on_slot_select(&mut self, slot: i32)
        requires
            old(self).wf(),
        ensures
            final(self).wf(),
            final(self)@ == select_slot(old(self)@, slot),
    {
        self.ensure_slot(slot);
        self.current = slot;
    }

    /// Records an x position on the track of the current slot.
    pub fn on_position_x(&mut self, value: i32)
        requires
            old(self).wf(),
        ensures
            final(self).wf(),
            final(self)@ == record(old(self)@, true, value),
    {
        let ghost before = self@;
        let i = self.ensure_slot(self.current);
        assert(self.tracks@[i as int]@ == self@.tracks[i as int]);
        self.tracks[i].push_x(value);
        assert(self@.tracks =~= record(before, true, value).tracks);
    }

    /// Records a y position on the track of the current slot.
    pub fn on_position_y(&mut self, value: i32)
        requires
            old(self).wf(),
        ensures
            final(self).wf(),
            final(self)@ == record(old(self)@, false, value),
    {
        let ghost before = self@;
        let i = self.ensure_slot(self.current);
        assert(self.tracks@[i as int]@ == self@.tracks[i as int]);
        self.tracks[i].push_y(value);
        assert(self@.tracks =~= record(before, false, value).tracks);
    }

    /// One more touch down.
    pub fn on_touch_down(&mut self)
        requires
            old(self).wf(),
        ensures
            final(self).wf(),
            final(self)@ == touch_down(old(self)@),
    {
        if self.held < i32::MAX {
            self.held = self.held + 1;
        }
    }

    /// One touch lifted; a lift with no touch down is ignored.
    pub fn on_touch_up(&mut self)
        requires
            old(self).wf(),
        ensures
            final(self).wf(),
            final(self)@ == touch_up(old(self)@),
    {
        if self.held > 0 {
            self.held = self.held - 1;
        }
    }

    /// Applies one decoded event.
    pub fn apply(&mut self, ev: Event)
        requires
            old(self).wf(),
        ensures
            final(self).wf(),
            final(self)@ == apply_event(old(self)@, ev),
    {
        match ev {
            Event::SlotSelect(s) => self.on_slot_select(s),
            Event::PositionX(x) => self.on_position_x(x),
            Event::PositionY(y) => self.on_position_y(y),
            Event::TouchDown => self.on_touch_down(),
            Event::TouchUp => self.on_touch_up(),
            Event::Other => {},
        }
    }

    /// Number of fingers of the gesture: the slots that received any sample.
    pub fn finger_count(&self) -> (r: usize)
        ensures
            r as nat == spec_finger_count(self@),
    {
        touched_indices(&self.tracks).len()
    }

    /// Whether every touch has lifted and some track received a sample.
    pub fn is_complete(&self) -> (r: bool)
        ensures
            r == spec_is_complete(self@),
    {
        self.held == 0 && self.finger_count() > 0
    }

    /// Drops every track and returns to idle.
    pub fn reset(&mut self)
        ensures
            final(self).wf(),
            final(self)@ == idle(),
    {
        self.slots.clear();
        self.tracks.clear();
        self.current = 0;
        self.held = 0;
        assert(self@.tracks =~= Seq::<TrackView>::empty());
    }

    /// Ends a batch of events: once no touch is down, returns the key of the
    /// completed gesture, if any, and resets.
    pub fn finish(&mut self, g: &Geometry, portrait: bool) -> (r: Option<String>)
        requires
            old(self).wf(),
        ensures
            final(self).wf(),
            final(self)@ == finish(old(self)@, *g, portrait).0,
            r is Some <==> finish(old(self)@, *g, portrait).1 is Some,
            r is Some ==> r->Some_0@ == finish(old(self)@, *g, portrait).1->Some_0,
    {
        if self.held != 0 {
            return None;
        }
        let key = if self.is_complete() {
            gesture_key(&self.tracks, g, portrait)
        } else {
            None
        };
        self.reset();
        key
    }

    /// Applies a batch of raw events, each a code and a value, then ends the batch.
    pub fn handle_batch(&mut self, events: &Vec<(u16, i32)>, g: &Geometry, portrait: bool) -> (r: Option<String>)
        requires
            old(self).wf(),
        ensures
            final(self).wf(),
            final(self)@ == finish(apply_events(old(self)@, events@), *g, portrait).0,
            r is Some <==> finish(apply_events(old(self)@, events@), *g, portrait).1 is Some,
            r is Some ==> r->Some_0@ == finish(apply_events(old(self)@, events@), *g, portrait).1->Some_0,
    {
        let ghost start = self@;
        let mut i: usize = 0;
        while i < events.len()
            invariant
                i <= events@.len(),
                self.wf(),
                self@ == apply_events(start, events@.subrange(0, i as int)),
            decreases events@.len() - i,
        {
            let (code, value) = events[i];
            self.apply(decode(code, value));
            assert(events@.subrange(0, i + 1).drop_last() =~= events@.subrange(0, i as int));
            i += 1;
        }
        assert(events@.subrange(0, events@.len() as int) =~= events@);
        self.finish(g, portrait)
    }
}

impl Default for GestureSession {
    fn default() -> (r: GestureSession)
        ensures
            r.wf(),
            r@ == idle(),
    {
        GestureSession::new()
    }
}

} // verus!
