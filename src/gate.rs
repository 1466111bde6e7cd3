use vstd::prelude::*;

verus! {

/// Minimum spacing of two accepted visibility toggles, in milliseconds.
pub const TOGGLE_INTERVAL_MS: u64 = 350;

/// Minimum spacing of two accepted window nudges, in milliseconds.
pub const NUDGE_INTERVAL_MS: u64 = 120;

/// Minimum spacing of two accepted screen captures, in milliseconds.
pub const CAPTURE_INTERVAL_MS: u64 = 500;

/// A minimum-interval guard. Timestamps are milliseconds of a monotonic clock;
/// `last_fired_ms` is `None` until the first permit, so the first call always passes.
#[derive(Clone, Copy, Debug, PartialEq, Eq, Structural)]
pub struct DebounceGate {
    pub interval_ms: u64,
    pub last_fired_ms: Option<u64>,
}

impl DebounceGate {
    /// Whether a request at `now` may proceed.
    pub open spec fn allows(self, now: u64) -> bool {
        match self.last_fired_ms {
            None => true,
            Some(last) => now as int >= last as int + self.interval_ms as int,
        }
    }

    /// The guard after a request at `now`: stamped when permitted, untouched otherwise.
    pub open spec fn after(self, now: u64) -> DebounceGate {
        if self.allows(now) {
            DebounceGate { last_fired_ms: Some(now), ..self }
        } else {
            self
        }
    }

    /// The guard after a series of requests, taken in order.
    pub open spec fn after_all(self, times: Seq<u64>) -> DebounceGate
        decreases times.len(),
    {
        if times.len() == 0 {
            self
        } else {
            self.after(times[0]).after_all(times.drop_first())
        }
    }

    /// How many of a series of requests are permitted.
    pub open spec fn granted(self, times: Seq<u64>) -> nat
        decreases times.len(),
    {
        if times.len() == 0 {
            0
        } else {
            (if self.allows(times[0]) { 1nat } else { 0nat }) + self.after(times[0]).granted(
                times.drop_first(),
            )
        }
    }

    /// A guard that has never fired.
    pub fn new(interval_ms: u64) -> (g: DebounceGate)
        ensures
            g.interval_ms == interval_ms,
            g.last_fired_ms is None,
    {
        DebounceGate { interval_ms, last_fired_ms: None }
    }

    /// Permits the request at `now` if at least the interval has passed since the
    /// last permit, stamping the guard with `now` in the same step; a refusal leaves
    /// the guard as it was.
    pub fn try_acquire(&mut self, now: u64) -> (r: bool)
        ensures
            r == old(self).allows(now),
            *final(self) == old(self).after(now),
    {
        let permitted = match self.last_fired_ms {
            None => true,
            Some(last) => now >= last && now - last >= self.interval_ms,
        };
        if permitted {
            self.last_fired_ms = Some(now);
        }
        permitted
    }
}

/// The timestamp of a guard never moves backwards.
pub proof fn lemma_last_fired_monotonic(g: DebounceGate, now: u64)
    ensures
        g.after(now).interval_ms == g.interval_ms,
        g.last_fired_ms is Some ==> g.after(now).last_fired_ms is Some
            && g.last_fired_ms->0 <= g.after(now).last_fired_ms->0,
{
}

/// Among requests that arrive at one and the same instant, exactly one is
/// permitted when the guard allows that instant, and none otherwise (for any
/// positive interval).
pub proof fn lemma_same_instant_grants_one(g: DebounceGate, now: u64, times: Seq<u64>)
    requires
        g.interval_ms > 0,
        times.len() >= 1,
        forall|i: int| 0 <= i < times.len() ==> times[i] == now,
    ensures
        g.granted(times) == (if g.allows(now) { 1nat } else { 0nat }),
{
    lemma_blocked_grants_none(g.after(now), now, times.drop_first());
}

/// A guard that refuses an instant grants nothing to any number of requests there.
proof fn lemma_blocked_grants_none(g: DebounceGate, now: u64, times: Seq<u64>)
    requires
        !g.allows(now) || (g.interval_ms > 0 && g.last_fired_ms == Some(now)),
        forall|i: int| 0 <= i < times.len() ==> times[i] == now,
    ensures
        g.granted(times) == 0,
        g.after_all(times) == g,
    decreases times.len(),
{
    if times.len() > 0 {
        lemma_blocked_grants_none(g.after(now), now, times.drop_first());
    }
}

} // verus!
