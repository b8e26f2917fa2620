//! Frame timer keeping the durations of the last few frames.
use std::time::Instant;
use core::time::Duration;
use vstd::prelude::*;

verus! {

/// The number of frame durations the timer remembers.
pub const FPS_SAMPLE_COUNT: usize = 5;

/// A frame duration is a fractional part of a second, in microseconds.
pub const MICROS_PER_SECOND: u32 = 1_000_000;

#[verifier::external_type_specification]
#[verifier::external_body]
pub struct ExInstant(Instant);

/// `std::time::Instant::now`: the current instant of the monotonic clock.
/// Nothing is claimed of the value: it depends on the time of the call.
#[verifier::external_body]
fn instant_now() -> (now: Instant) {
    Instant::now()
}

/// `std::time::Instant::elapsed`: the time passed since `since`.
/// Nothing is claimed of the value: it depends on the time of the call.
#[verifier::external_body]
fn instant_elapsed(since: &Instant) -> (elapsed: Duration) {
    since.elapsed()
}

/// `std::time::Duration::subsec_micros`: the fractional part of the duration in
/// whole microseconds. Its documentation promises a value below one million;
/// which value it is depends on the duration, which this library never inspects.
#[verifier::external_body]
fn duration_subsec_micros(d: &Duration) -> (micros: u32)
    ensures
        micros < MICROS_PER_SECOND,
{
    d.subsec_micros()
}

/// The abstract state of a timer: the ring of remembered frame durations, the
/// slot that the next frame fills, and the duration of the latest frame.
pub struct TimerState {
    pub samples: Seq<u32>,
    pub current_frame: int,
    pub delta_frame: u32,
}

impl TimerState {
    /// Every reachable timer state: five samples, each a fractional second, and
    /// a slot index inside the ring.
    pub open spec fn wf(self) -> bool {
        &&& self.samples.len() == FPS_SAMPLE_COUNT
        &&& 0 <= self.current_frame < FPS_SAMPLE_COUNT
        &&& self.delta_frame < MICROS_PER_SECOND
        &&& forall|i: int| 0 <= i < FPS_SAMPLE_COUNT ==> #[trigger] self.samples[i] < MICROS_PER_SECOND
    }

    /// The state after a frame that lasted `delta` microseconds.
    pub open spec fn record(self, delta: u32) -> TimerState {
        TimerState {
            samples: self.samples.update(self.current_frame, delta),
            current_frame: (self.current_frame + 1) % (FPS_SAMPLE_COUNT as int),
            delta_frame: delta,
        }
    }

    /// The state after frames lasting `deltas[0]`, `deltas[1]`, ... in this order.
    pub open spec fn record_all(self, deltas: Seq<u32>) -> TimerState
        decreases deltas.len(),
    {
        if deltas.len() == 0 {
            self
        } else {
            self.record(deltas[0]).record_all(deltas.drop_first())
        }
    }
}

/// Recording a fractional-second frame keeps a timer state valid.
pub proof fn lemma_record_keeps_wf(s: TimerState, delta: u32)
    requires
        s.wf(),
        delta < MICROS_PER_SECOND,
    ensures
        s.record(delta).wf(),
{
    let r = s.record(delta);
    assert forall|i: int| 0 <= i < FPS_SAMPLE_COUNT implies #[trigger] r.samples[i] < MICROS_PER_SECOND by {
        if i != s.current_frame {
            assert(r.samples[i] == s.samples[i]);
        }
    }
}

/// Law: after `FPS_SAMPLE_COUNT` frames the timer remembers exactly those frames,
/// the `k`-th of them in slot `(start + k) % FPS_SAMPLE_COUNT`; the next frame goes
/// to the slot it started from, and the latest delta is the last frame's duration.
pub proof fn lemma_window_holds_last_frames(s: TimerState, deltas: Seq<u32>)
    requires
        s.wf(),
        deltas.len() == FPS_SAMPLE_COUNT,
        forall|i: int| 0 <= i < deltas.len() ==> #[trigger] deltas[i] < MICROS_PER_SECOND,
    ensures
        s.record_all(deltas).wf(),
        s.record_all(deltas).current_frame == s.current_frame,
        s.record_all(deltas).delta_frame == deltas[FPS_SAMPLE_COUNT - 1],
        forall|k: int|
            0 <= k < FPS_SAMPLE_COUNT ==> s.record_all(deltas).samples[(s.current_frame + k)
                % (FPS_SAMPLE_COUNT as int)] == #[trigger] deltas[k],
{
    let s1 = s.record(deltas[0]);
    let s2 = s1.record(deltas[1]);
    let s3 = s2.record(deltas[2]);
    let s4 = s3.record(deltas[3]);
    let s5 = s4.record(deltas[4]);
    lemma_record_keeps_wf(s, deltas[0]);
    lemma_record_keeps_wf(s1, deltas[1]);
    lemma_record_keeps_wf(s2, deltas[2]);
    lemma_record_keeps_wf(s3, deltas[3]);
    lemma_record_keeps_wf(s4, deltas[4]);
    let d1 = deltas.drop_first();
    let d2 = d1.drop_first();
    let d3 = d2.drop_first();
    let d4 = d3.drop_first();
    let d5 = d4.drop_first();
    assert(d5.len() == 0);
    assert(s5.record_all(d5) == s5);
    assert(s4.record_all(d4) == s5);
    assert(s3.record_all(d3) == s5);
    assert(s2.record_all(d2) == s5);
    assert(s1.record_all(d1) == s5);
    assert(s.record_all(deltas) == s5);
}

/// Recording frames one after another is recording them all at once.
pub proof fn lemma_record_all_push(s: TimerState, deltas: Seq<u32>, delta: u32)
    ensures
        s.record_all(deltas.push(delta)) == s.record_all(deltas).record(delta),
    decreases deltas.len(),
{
    let e = deltas.push(delta);
    assert(e[0] == if deltas.len() == 0 { delta } else { deltas[0] });
    if deltas.len() == 0 {
        assert(e.drop_first() =~= deltas);
        assert(s.record_all(e) == s.record(delta).record_all(deltas));
    } else {
        assert(e.drop_first() =~= deltas.drop_first().push(delta));
        lemma_record_all_push(s.record(deltas[0]), deltas.drop_first(), delta);
        assert(s.record_all(e) == s.record(deltas[0]).record_all(e.drop_first()));
    }
}

/// Slot arithmetic of a ring of five: moving on by one from the slot reached
/// after `m` steps is the slot reached after `m + 1` steps.
proof fn lemma_slot_step(c: int, m: int)
    requires
        0 <= c < 5,
        0 <= m,
    ensures
        ((c + m) % 5 + 1) % 5 == (c + m + 1) % 5,
{
}

/// Slot arithmetic of a ring of five: fewer than five steps apart, two slots differ.
proof fn lemma_slots_apart(c: int, k: int, m: int)
    requires
        0 <= c < 5,
        0 <= k < m,
        m - k < 5,
    ensures
        (c + k) % 5 != (c + m) % 5,
{
}

/// Slot arithmetic of a ring of five: a slot more than `m` steps ahead of `c` is
/// not the slot `m` steps ahead.
proof fn lemma_slot_ahead(c: int, i: int, m: int)
    requires
        0 <= c < 5,
        0 <= i < 5,
        0 <= m,
        (i - c) % 5 > m,
    ensures
        i != (c + m) % 5,
{
}

/// Law (the ring buffer): after any number of frames the next slot has moved on
/// by that many places, the latest delta is the last frame's duration, each of
/// the last `FPS_SAMPLE_COUNT` frames is in its slot, and a slot that no frame
/// reached keeps what it held.
pub proof fn lemma_ring_buffer(s: TimerState, deltas: Seq<u32>)
    requires
        s.wf(),
        forall|i: int| 0 <= i < deltas.len() ==> #[trigger] deltas[i] < MICROS_PER_SECOND,
    ensures
        s.record_all(deltas).wf(),
        s.record_all(deltas).current_frame == (s.current_frame + deltas.len()) % (
        FPS_SAMPLE_COUNT as int),
        s.record_all(deltas).delta_frame == if deltas.len() == 0 {
            s.delta_frame
        } else {
            deltas.last()
        },
        forall|k: int|
            0 <= k < deltas.len() && deltas.len() - FPS_SAMPLE_COUNT <= k ==> s.record_all(
                deltas,
            ).samples[(s.current_frame + k) % (FPS_SAMPLE_COUNT as int)] == #[trigger] deltas[k],
        forall|i: int|
            0 <= i < FPS_SAMPLE_COUNT && (i - s.current_frame) % (FPS_SAMPLE_COUNT as int)
                >= deltas.len() ==> #[trigger] s.record_all(deltas).samples[i] == s.samples[i],
    decreases deltas.len(),
{
    let n = deltas.len() as int;
    let c = s.current_frame;
    if n == 0 {
        assert(s.record_all(deltas) == s);
    } else {
        let prev = deltas.drop_last();
        let last = deltas.last();
        assert(deltas =~= prev.push(last));
        assert forall|i: int| 0 <= i < prev.len() implies #[trigger] prev[i] < MICROS_PER_SECOND by {
            assert(prev[i] == deltas[i]);
        }
        lemma_ring_buffer(s, prev);
        lemma_record_all_push(s, prev, last);
        let p = s.record_all(prev);
        lemma_record_keeps_wf(p, last);
        let r = s.record_all(deltas);
        assert(r == p.record(last));
        assert(p.current_frame == (c + n - 1) % 5);
        lemma_slot_step(c, n - 1);
        assert forall|k: int| 0 <= k < n && n - FPS_SAMPLE_COUNT <= k implies r.samples[(c + k) % (
        FPS_SAMPLE_COUNT as int)] == #[trigger] deltas[k] by {
            if k < n - 1 {
                assert(prev[k] == deltas[k]);
                lemma_slots_apart(c, k, n - 1);
                assert(p.samples[(c + k) % 5] == prev[k]);
            }
        }
        assert forall|i: int|
            0 <= i < FPS_SAMPLE_COUNT && (i - c) % (FPS_SAMPLE_COUNT as int) >= n implies #[trigger] r.samples[i]
            == s.samples[i] by {
            lemma_slot_ahead(c, i, n - 1);
            assert(p.samples[i] == s.samples[i]);
        }
    }
}

/// The state of a timer that has just been made: all samples zero, the first
/// slot next, and no delta yet.
pub open spec fn initial_timer_state() -> TimerState {
    TimerState { samples: seq![0u32, 0u32, 0u32, 0u32, 0u32], current_frame: 0, delta_frame: 0 }
}

/// Law: `n` frames after a timer was made, the next slot is `n % FPS_SAMPLE_COUNT`,
/// the latest delta is the last frame's duration (zero before any frame), slot
/// `k % FPS_SAMPLE_COUNT` holds frame `k` for each of the last `FPS_SAMPLE_COUNT`
/// frames, and the slots that no frame reached yet are still zero.
pub proof fn lemma_ring_buffer_from_new(deltas: Seq<u32>)
    requires
        forall|i: int| 0 <= i < deltas.len() ==> #[trigger] deltas[i] < MICROS_PER_SECOND,
    ensures
        initial_timer_state().record_all(deltas).wf(),
        initial_timer_state().record_all(deltas).current_frame == (deltas.len() as int) % (
        FPS_SAMPLE_COUNT as int),
        initial_timer_state().record_all(deltas).delta_frame == if deltas.len() == 0 {
            0
        } else {
            deltas.last()
        },
        forall|k: int|
            0 <= k < deltas.len() && deltas.len() - FPS_SAMPLE_COUNT <= k
                ==> initial_timer_state().record_all(deltas).samples[k % (FPS_SAMPLE_COUNT as int)]
                == #[trigger] deltas[k],
        forall|i: int|
            deltas.len() <= i < FPS_SAMPLE_COUNT ==> #[trigger] initial_timer_state().record_all(
                deltas,
            ).samples[i] == 0,
{
    let s = initial_timer_state();
    lemma_ring_buffer(s, deltas);
    assert forall|i: int| deltas.len() <= i < FPS_SAMPLE_COUNT implies #[trigger] s.record_all(
        deltas,
    ).samples[i] == 0 by {
        assert((i - s.current_frame) % (FPS_SAMPLE_COUNT as int) == i);
        assert(s.samples[i] == 0);
    }
    assert forall|k: int| 0 <= k < deltas.len() && deltas.len() - FPS_SAMPLE_COUNT <= k implies s.record_all(
        deltas,
    ).samples[k % (FPS_SAMPLE_COUNT as int)] == #[trigger] deltas[k] by {
        assert(s.current_frame + k == k);
    }
}

/// Sum of the first `n` elements of `s`.
pub open spec fn sum_prefix(s: Seq<u32>, n: int) -> int
    decreases n,
{
    if n <= 0 {
        0
    } else {
        sum_prefix(s, n - 1) + s[n - 1]
    }
}

/// Law: after `FPS_SAMPLE_COUNT` frames, the sum of the remembered samples (what
/// the frame rate is computed from) is the total duration of those frames.
pub proof fn lemma_window_sum(s: TimerState, deltas: Seq<u32>)
    requires
        s.wf(),
        deltas.len() == FPS_SAMPLE_COUNT,
        forall|i: int| 0 <= i < deltas.len() ==> #[trigger] deltas[i] < MICROS_PER_SECOND,
    ensures
        sum_prefix(s.record_all(deltas).samples, FPS_SAMPLE_COUNT as int) == sum_prefix(
            deltas,
            FPS_SAMPLE_COUNT as int,
        ),
{
    lemma_window_holds_last_frames(s, deltas);
    let r = s.record_all(deltas).samples;
    let c = s.current_frame;
    reveal_with_fuel(sum_prefix, 6);
    assert(r[(c + 0) % 5] == deltas[0]);
    assert(r[(c + 1) % 5] == deltas[1]);
    assert(r[(c + 2) % 5] == deltas[2]);
    assert(r[(c + 3) % 5] == deltas[3]);
    assert(r[(c + 4) % 5] == deltas[4]);
    assert(sum_prefix(r, 5) == r[0] + r[1] + r[2] + r[3] + r[4]);
    assert(sum_prefix(deltas, 5) == deltas[0] + deltas[1] + deltas[2] + deltas[3] + deltas[4]);
}

/// Measures the durations of frames and keeps the last `FPS_SAMPLE_COUNT` of them.
pub struct Timer {
    counter: Instant,
    samples: [u32; FPS_SAMPLE_COUNT],
    current_frame: usize,
    delta_frame: u32,
}

impl View for Timer {
    type V = TimerState;

    closed spec fn view(&self) -> TimerState {
        TimerState {
            samples: self.samples@,
            current_frame: self.current_frame as int,
            delta_frame: self.delta_frame,
        }
    }
}

impl Timer {
    /// A timer always holds a valid state.
    #[verifier::type_invariant]
    spec fn inv(self) -> bool {
        self@.wf()
    }

    /// A timer that starts counting now, with all samples zero.
    pub fn new() -> (t: Timer)
        ensures
            t@.wf(),
            t@ == initial_timer_state(),
    {
        let t = Timer {
            counter: instant_now(),
            samples: [0u32, 0u32, 0u32, 0u32, 0u32],
            current_frame: 0,
            delta_frame: 0,
        };
        assert(t@.samples =~= initial_timer_state().samples);
        t
    }

    /// Records a frame that lasted `delta_micros` microseconds: it becomes the
    /// current delta and replaces the oldest sample.
    pub fn record_frame(&mut self, delta_micros: u32)
        requires
            delta_micros < MICROS_PER_SECOND,
        ensures
            final(self)@.wf(),
            final(self)@ == old(self)@.record(delta_micros),
    {
        proof {
            use_type_invariant(&*self);
        }
        self.delta_frame = delta_micros;
        self.samples[self.current_frame] = delta_micros;
        self.current_frame = (self.current_frame + 1) % FPS_SAMPLE_COUNT;
    }

    /// Call this function in each frame during game loop to update its inner status.
    /// The time since the previous call (or since creation), cut to its fraction of
    /// a second, is recorded as the latest frame.
    pub fn tick_frame(&mut self)
        ensures
            final(self)@.wf(),
            final(self)@ == old(self)@.record(final(self)@.delta_frame),
    {
        proof {
            use_type_invariant(&*self);
        }
        let time_elapsed = instant_elapsed(&self.counter);
        self.counter = instant_now();
        let micros = duration_subsec_micros(&time_elapsed);
        self.record_frame(micros);
    }

    /// Duration of the latest frame in microseconds.
    pub fn delta_micros(&self) -> (d: u32)
        ensures
            d == self@.delta_frame,
            d < MICROS_PER_SECOND,
            self@.wf(),
    {
        proof {
            use_type_invariant(self);
        }
        self.delta_frame
    }

    /// Sum of the remembered frame durations, in microseconds.
    pub fn sample_sum(&self) -> (sum: u32)
        ensures
            sum == sum_prefix(self@.samples, FPS_SAMPLE_COUNT as int),
            self@.wf(),
    {
        proof {
            use_type_invariant(self);
        }
        let mut sum: u32 = 0;
        let mut i: usize = 0;
        while i < FPS_SAMPLE_COUNT
            invariant
                i <= FPS_SAMPLE_COUNT,
                self@.wf(),
                sum == sum_prefix(self@.samples, i as int),
                sum <= 999_999 * i,
            decreases FPS_SAMPLE_COUNT - i,
        {
            assert(self.samples@[i as int] < MICROS_PER_SECOND);
            sum = sum + self.samples[i];
            i = i + 1;
        }
        sum
    }
}

} // verus!
