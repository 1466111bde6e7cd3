use vstd::prelude::*;
use std::collections::VecDeque;
use crate::gate::{DebounceGate, CAPTURE_INTERVAL_MS};

verus! {

/// Why a screen capture produced no artifact.
#[derive(Clone, Debug, PartialEq, Eq)]
pub enum CaptureError {
    /// The host reported no screen.
    NoScreen,
    /// The screen could not be read; the capture primitive's message.
    ScreenRead(String),
    /// The raw pixels did not fill a buffer of four bytes per pixel.
    BufferConversion,
    /// The image could not be encoded or written; the encoder's message.
    Encode(String),
}

/// What to do with a capture request.
#[derive(Clone, Copy, Debug, PartialEq, Eq, Structural)]
pub enum CaptureStep {
    /// Debounced: nothing is captured, and this is the queue's current length.
    Debounced(usize),
    /// Permitted: capture the screen and hand the outcome to `finish_capture`.
    Capture,
}

/// The ordered references to captured images, with the guard that debounces
/// captures. Items keep their insertion order and are only ever removed all
/// at once.
#[derive(Clone, Debug)]
pub struct ImageQueue {
    items: VecDeque<String>,
    capture_gate: DebounceGate,
}

/// The queue's contents and capture guard after one capture request at `now` whose
/// capture, when permitted, yields `artifact`.
pub open spec fn captured(
    state: (Seq<String>, DebounceGate),
    now: u64,
    artifact: String,
) -> (Seq<String>, DebounceGate) {
    if state.1.allows(now) {
        (state.0.push(artifact), state.1.after(now))
    } else {
        state
    }
}

/// The contents and guard after a series of capture requests, the i-th at
/// `times[i]` yielding `artifacts[i]` when permitted.
pub open spec fn captured_all(
    state: (Seq<String>, DebounceGate),
    times: Seq<u64>,
    artifacts: Seq<String>,
) -> (Seq<String>, DebounceGate)
    decreases times.len(),
{
    if times.len() == 0 || artifacts.len() == 0 {
        state
    } else {
        captured_all(
            captured(state, times[0], artifacts[0]),
            times.drop_first(),
            artifacts.drop_first(),
        )
    }
}

/// The contents and guard after `clear`: no items, the same guard.
pub open spec fn cleared(state: (Seq<String>, DebounceGate)) -> (Seq<String>, DebounceGate) {
    (Seq::empty(), state.1)
}

impl View for ImageQueue {
    type V = (Seq<String>, DebounceGate);

    closed spec fn view(&self) -> (Seq<String>, DebounceGate) {
        (self.items@, self.capture_gate)
    }
}

impl ImageQueue {
    /// An empty queue whose capture guard has never fired.
    pub fn new() -> (q: ImageQueue)
        ensures
            q@.0.len() == 0,
            q@.1 == (DebounceGate { interval_ms: CAPTURE_INTERVAL_MS, last_fired_ms: None }),
    {
        ImageQueue { items: VecDeque::new(), capture_gate: DebounceGate::new(CAPTURE_INTERVAL_MS) }
    }

    /// The number of queued images.
    pub fn length(&self) -> (r: usize)
        ensures
            r == self@.0.len(),
    {
        self.items.len()
    }

    /// Empties the queue; the guard is kept, the files behind the references too.
    pub fn clear(&mut self)
        ensures
            final(self)@ == cleared(old(self)@),
    {
        self.items.clear();
        assert(self.items@ =~= Seq::<String>::empty());
    }

    /// A copy of the contents, in insertion order.
    pub fn snapshot(&self) -> (r: Vec<String>)
        ensures
            r@ == self@.0,
    {
        let mut r: Vec<String> = Vec::new();
        let mut i: usize = 0;
        while i < self.items.len()
            invariant
                i <= self.items@.len(),
                r@ == self.items@.subrange(0, i as int),
            decreases self.items@.len() - i,
        {
            r.push(self.items[i].clone());
            i = i + 1;
            assert(r@ =~= self.items@.subrange(0, i as int));
        }
        assert(r@ =~= self.items@);
        r
    }

    /// Asks the capture guard whether a capture request at `now` may go ahead.
    pub fn begin_capture(&mut self, now: u64) -> (r: CaptureStep)
        ensures
            final(self)@ == (old(self)@.0, old(self)@.1.after(now)),
            old(self)@.1.allows(now) ==> r == CaptureStep::Capture,
            !old(self)@.1.allows(now) ==> r == CaptureStep::Debounced(old(self)@.0.len() as usize),
    {
        if self.capture_gate.try_acquire(now) {
            CaptureStep::Capture
        } else {
            CaptureStep::Debounced(self.items.len())
        }
    }

    /// Appends the artifact of a permitted capture and gives the new length; a
    /// failed capture leaves the queue as it was and its error comes back.
    pub fn finish_capture(&mut self, outcome: Result<String, CaptureError>) -> (r: Result<
        usize,
        CaptureError,
    >)
        requires
            old(self)@.0.len() < usize::MAX,
        ensures
            final(self)@.1 == old(self)@.1,
            match outcome {
                Ok(a) => final(self)@.0 == old(self)@.0.push(a) && r == Ok::<usize, CaptureError>(
                    final(self)@.0.len() as usize,
                ),
                Err(e) => final(self)@.0 == old(self)@.0 && r == Err::<usize, CaptureError>(e),
            },
    {
        match outcome {
            Ok(a) => {
                self.items.push_back(a);
                Ok(self.items.len())
            },
            Err(e) => Err(e),
        }
    }
}

/// Capture requests that all fall within one capture interval of the first,
/// which the guard permits, add exactly one item to an empty queue.
pub proof fn lemma_rapid_captures_queue_one(
    gate: DebounceGate,
    times: Seq<u64>,
    artifacts: Seq<String>,
)
    requires
        times.len() >= 1,
        artifacts.len() == times.len(),
        gate.allows(times[0]),
        forall|i: int|
            0 <= i < times.len() ==> (#[trigger] times[i] as int) < times[0] as int
                + gate.interval_ms as int,
    ensures
        captured_all((Seq::empty(), gate), times, artifacts).0 == seq![artifacts[0]],
{
    let first = captured((Seq::empty(), gate), times[0], artifacts[0]);
    assert(first.0 =~= seq![artifacts[0]]);
    lemma_captures_refused(first, times[0], times.drop_first(), artifacts.drop_first());
}

proof fn lemma_captures_refused(
    state: (Seq<String>, DebounceGate),
    first: u64,
    times: Seq<u64>,
    artifacts: Seq<String>,
)
    requires
        state.1.last_fired_ms == Some(first),
        forall|i: int|
            0 <= i < times.len() ==> (#[trigger] times[i] as int) < first as int
                + state.1.interval_ms as int,
    ensures
        captured_all(state, times, artifacts) == state,
    decreases times.len(),
{
    if times.len() > 0 && artifacts.len() > 0 {
        lemma_captures_refused(
            captured(state, times[0], artifacts[0]),
            first,
            times.drop_first(),
            artifacts.drop_first(),
        );
    }
}

/// Capture requests spaced at least one capture interval apart, the first of
/// which the guard permits, each add their artifact: the queue then holds all of
/// them, in the order they were captured.
pub proof fn lemma_spaced_captures_queue_all(
    state: (Seq<String>, DebounceGate),
    times: Seq<u64>,
    artifacts: Seq<String>,
)
    requires
        artifacts.len() == times.len(),
        times.len() >= 1 ==> state.1.allows(times[0]),
        forall|i: int|
            0 < i < times.len() ==> (#[trigger] times[i] as int) >= times[i - 1] as int
                + state.1.interval_ms as int,
    ensures
        captured_all(state, times, artifacts).0 == state.0 + artifacts,
    decreases times.len(),
{
    if times.len() == 0 {
        assert(state.0 + artifacts =~= state.0);
    } else {
        let next = captured(state, times[0], artifacts[0]);
        let rest = times.drop_first();
        assert forall|i: int| 0 < i < rest.len() implies (#[trigger] rest[i] as int) >= rest[i
            - 1] as int + next.1.interval_ms as int by {
            assert(rest[i] == times[i + 1]);
            assert(times[i + 1] as int >= times[i] as int + state.1.interval_ms as int);
        }
        if rest.len() >= 1 {
            assert(rest[0] == times[1]);
            assert(times[1] as int >= times[0] as int + state.1.interval_ms as int);
        }
        lemma_spaced_captures_queue_all(next, rest, artifacts.drop_first());
        assert(state.0 + artifacts =~= state.0.push(artifacts[0]) + artifacts.drop_first());
    }
}

} // verus!
