use std::collections::VecDeque;
use std::time::Instant;
use vstd::prelude::*;

verus! {

/// `std::time::Instant`, carried through as an opaque value.
#[verifier::external_type_specification]
#[verifier::external_body]
pub struct ExInstant(Instant);

/// Reads the clock with `std::time::Instant::now`. The result depends on the
/// moment of the call, so nothing is claimed of it.
#[verifier::external_body]
fn now() -> (t: Instant) {
    Instant::now()
}

/// The last `max` entries of `s` (all of `s` when it has no more than `max`).
pub open spec fn window(s: Seq<Instant>, max: nat) -> Seq<Instant> {
    if s.len() <= max {
        s
    } else {
        s.subrange(s.len() - max, s.len() as int)
    }
}

/// The frames kept after recording each timestamp of `ts`, in order,
/// starting from the frames `s`.
pub open spec fn record_all(s: Seq<Instant>, ts: Seq<Instant>, max: nat) -> Seq<Instant>
    decreases ts.len(),
{
    if ts.len() == 0 {
        s
    } else {
        record_all(window(s.push(ts[0]), max), ts.drop_first(), max)
    }
}

/// A bounded record of frame timestamps, oldest first, that keeps only the
/// most recent `max_frames` of them.
pub struct FrameQueue {
    frames: VecDeque<Instant>,
    max_frames: usize,
}

impl View for FrameQueue {
    type V = Seq<Instant>;

    /// The timestamps kept, oldest first.
    closed spec fn view(&self) -> Seq<Instant> {
        self.frames@
    }
}

impl FrameQueue {
    /// How many timestamps the queue keeps at most.
    pub closed spec fn max_frames(&self) -> nat {
        self.max_frames as nat
    }

    /// The queue never holds more than `max_frames` timestamps.
    pub open spec fn wf(&self) -> bool {
        self@.len() <= self.max_frames()
    }

    /// An empty queue that keeps at most `max_frames` timestamps.
    pub fn new(max_frames: usize) -> (r: Self)
        ensures
            r.wf(),
            r@ == Seq::<Instant>::empty(),
            r.max_frames() == max_frames,
    {
        FrameQueue { frames: VecDeque::new(), max_frames }
    }

    /// Appends `timestamp` as the newest frame and drops the oldest one
    /// when the queue would otherwise hold more than `max_frames`.
    pub fn record_frame_at(&mut self, timestamp: Instant)
        requires
            old(self).wf(),
        ensures
            final(self).wf(),
            final(self).max_frames() == old(self).max_frames(),
            final(self)@ == window(old(self)@.push(timestamp), old(self).max_frames()),
            final(self)@.len() == (if old(self)@.len() < old(self).max_frames() {
                old(self)@.len() + 1
            } else {
                old(self).max_frames()
            }),
            old(self)@.len() < old(self).max_frames() ==> final(self)@ == old(self)@.push(
                timestamp,
            ),
            old(self)@.len() == old(self).max_frames() && old(self).max_frames() > 0
                ==> final(self)@ == old(self)@.drop_first().push(timestamp),
    {
        self.frames.push_back(timestamp);
        if self.frames.len() > self.max_frames {
            let _ = self.frames.pop_front();
        }
        proof {
            lemma_window_exact(old(self)@.push(timestamp), old(self).max_frames());
            if old(self)@.len() == old(self).max_frames() && old(self).max_frames() > 0 {
                lemma_full_window_drops_oldest(old(self)@, timestamp, old(self).max_frames());
            }
        }
    }

    /// Records the current time as the newest frame, as `record_frame_at`
    /// does with the moment of the call.
    pub fn record_frame(&mut self)
        requires
            old(self).wf(),
        ensures
            final(self).wf(),
            final(self).max_frames() == old(self).max_frames(),
            exists|t: Instant|
                final(self)@ == #[trigger] window(old(self)@.push(t), old(self).max_frames()),
            final(self)@.len() == (if old(self)@.len() < old(self).max_frames() {
                old(self)@.len() + 1
            } else {
                old(self).max_frames()
            }),
            old(self)@.len() < old(self).max_frames() ==> final(self)@.drop_last() == old(
                self,
            )@,
            old(self)@.len() == old(self).max_frames() && old(self).max_frames() > 0
                ==> final(self)@.drop_last() == old(self)@.drop_first(),
    {
        let timestamp = now();
        self.record_frame_at(timestamp);
    }

    /// The newest timestamp, or `None` when no frame is kept.
    pub fn get_last_frame(&self) -> (r: Option<Instant>)
        ensures
            r == (if self@.len() == 0 {
                None::<Instant>
            } else {
                Some(self@.last())
            }),
    {
        let n = self.frames.len();
        if n == 0 {
            None
        } else {
            Some(self.frames[n - 1])
        }
    }

    /// The number of timestamps kept.
    pub fn frame_count(&self) -> (r: usize)
        ensures
            r == self@.len(),
    {
        self.frames.len()
    }

    /// The oldest and the newest timestamp, when at least two are kept: the
    /// span over which a frame rate is measured.
    pub fn span(&self) -> (r: Option<(Instant, Instant)>)
        ensures
            r == (if self@.len() < 2 {
                None::<(Instant, Instant)>
            } else {
                Some((self@[0], self@.last()))
            }),
    {
        let n = self.frames.len();
        if n < 2 {
            None
        } else {
            Some((self.frames[0], self.frames[n - 1]))
        }
    }
}

/// Recording `t` into a window of `h` gives the window of `h` followed by `t`.
pub proof fn lemma_window_step(h: Seq<Instant>, t: Instant, max: nat)
    ensures
        window(window(h, max).push(t), max) == window(h.push(t), max),
{
    assert(window(window(h, max).push(t), max) =~= window(h.push(t), max));
}

/// Recording the timestamps `ts` one by one into a queue that holds the
/// window of `h` leaves it holding the window of `h` followed by `ts`: the
/// queue always keeps the most recent `max` timestamps, oldest first.
pub proof fn lemma_record_all_is_window(h: Seq<Instant>, ts: Seq<Instant>, max: nat)
    ensures
        record_all(window(h, max), ts, max) == window(h + ts, max),
    decreases ts.len(),
{
    if ts.len() == 0 {
        assert(h + ts =~= h);
    } else {
        lemma_window_step(h, ts[0], max);
        lemma_record_all_is_window(h.push(ts[0]), ts.drop_first(), max);
        assert(h.push(ts[0]) + ts.drop_first() =~= h + ts);
    }
}

/// Once a timestamp is recorded into a queue that keeps at least one frame,
/// it is the newest frame.
pub proof fn lemma_recorded_is_newest(s: Seq<Instant>, t: Instant, max: nat)
    requires
        max > 0,
    ensures
        window(s.push(t), max).len() > 0,
        window(s.push(t), max).last() == t,
{
}

/// A window keeps exactly `min(s.len(), max)` entries, and they are the
/// newest entries of `s` in their original order.
pub proof fn lemma_window_exact(s: Seq<Instant>, max: nat)
    ensures
        window(s, max).len() == (if s.len() <= max {
            s.len()
        } else {
            max
        }),
        forall|i: int|
            0 <= i < window(s, max).len() ==> #[trigger] window(s, max)[i] == s[s.len()
                - window(s, max).len() + i],
{
}

/// Recording into a full queue (`max` timestamps, `max > 0`) drops exactly
/// the oldest timestamp and appends the new one: the queue stays at `max`.
pub proof fn lemma_full_window_drops_oldest(s: Seq<Instant>, t: Instant, max: nat)
    requires
        s.len() == max,
        max > 0,
    ensures
        window(s.push(t), max) == s.drop_first().push(t),
        window(s.push(t), max).len() == max,
{
    assert(window(s.push(t), max) =~= s.drop_first().push(t));
}

/// Recording into a queue with room left keeps every earlier timestamp and
/// appends the new one.
pub proof fn lemma_window_with_room_keeps_all(s: Seq<Instant>, t: Instant, max: nat)
    requires
        s.len() < max,
    ensures
        window(s.push(t), max) == s.push(t),
        window(s.push(t), max).len() == s.len() + 1,
{
}

/// A window is the newest part of the sequence, no longer than `max`; a
/// queue that keeps no frame stays empty.
pub proof fn lemma_window_bounded(s: Seq<Instant>, max: nat)
    ensures
        window(s, max).len() <= max,
        window(s, max) == s.subrange(s.len() - window(s, max).len(), s.len() as int),
        s.len() <= max ==> window(s, max) == s,
        max == 0 ==> window(s, max) == Seq::<Instant>::empty(),
{
    assert(s.subrange(0, s.len() as int) =~= s);
    if max == 0 {
        assert(window(s, max) =~= Seq::<Instant>::empty());
    }
}

} // verus!
