//! Pacing of requests to the image server. Live requests (tiles on screen) and
//! background pre-caching each take slots from their own queue, spaced a little
//! apart and never queued further ahead than a few seconds; a rate-limit answer
//! from the server closes both queues until its back-off has passed. Times are
//! milliseconds on a monotonic clock that the caller reads.

use vstd::prelude::*;

verus! {

/// The longest back-off a single rate-limit answer can impose (15 minutes).
pub const MAX_BACKOFF_MS: u64 = 900_000;
/// The spacing between two live requests.
pub const REQUEST_SPACING_MS: u64 = 15;
/// How far ahead a request may be queued before it is refused.
pub const MAX_QUEUE_AHEAD_MS: u64 = 3000;
/// The spacing between two background requests.
pub const BACKGROUND_PACING_MS: u64 = 15;
/// Background requests wait this long after the last live request.
pub const LIVE_PRIORITY_WINDOW_MS: u64 = 100;
/// The latest clock reading accepted (about 146 million years).
pub const CLOCK_LIMIT_MS: u64 = 0x4000_0000_0000_0000;

/// A request gate as plain numbers.
pub struct GateView {
    /// When the next live request may start.
    pub gate: nat,
    /// When the next background request may start.
    pub precache_gate: nat,
    /// The end of the current server back-off, if any.
    pub limited_until: Option<nat>,
    /// When the last live request was reserved, if ever.
    pub last_live: Option<nat>,
}

/// A back-off clamped to `MAX_BACKOFF_MS`.
pub open spec fn clamp_backoff(after: nat) -> nat {
    if after < MAX_BACKOFF_MS { after } else { MAX_BACKOFF_MS as nat }
}

/// The larger of two times.
pub open spec fn later(a: nat, b: nat) -> nat {
    if a >= b { a } else { b }
}

/// What is left of the back-off at `now`, and the state once an expired back-off is forgotten.
pub open spec fn limited_for(v: GateView, now: nat) -> (GateView, Option<nat>) {
    match v.limited_until {
        Some(until) => if until > now {
            (v, Some((until - now) as nat))
        } else {
            (GateView { limited_until: None, ..v }, None)
        },
        None => (v, None),
    }
}

/// Records a back-off of `after` from `now`, keeping a longer one already in force.
pub open spec fn note_limit(v: GateView, now: nat, after: nat) -> GateView {
    let until = now + clamp_backoff(after);
    match v.limited_until {
        Some(previous) => if previous < until { GateView { limited_until: Some(until), ..v } } else { v },
        None => GateView { limited_until: Some(until), ..v },
    }
}

/// A server rate-limit answer: both the back-off and the live queue move past it.
pub open spec fn backed_off(v: GateView, now: nat, after: nat) -> GateView {
    let noted = note_limit(v, now, after);
    GateView { gate: later(noted.gate, now + clamp_backoff(after)), ..noted }
}

/// Reserving a live slot at `now`: the wait before the request may start, or
/// the reason it is refused (the back-off left, or how far ahead it would queue).
pub open spec fn reserve_live(v: GateView, now: nat) -> (GateView, Result<nat, nat>) {
    let (v1, left) = limited_for(v, now);
    match left {
        Some(l) => (v1, Err(l)),
        None => {
            let v2 = GateView { last_live: Some(now), ..v1 };
            let start = later(v2.gate, now);
            let wait = (start - now) as nat;
            if wait > MAX_QUEUE_AHEAD_MS {
                (v2, Err(wait))
            } else {
                (GateView { gate: (start + REQUEST_SPACING_MS) as nat, ..v2 }, Ok(wait))
            }
        },
    }
}

/// Reserving a background slot at `now`; background requests also yield to a
/// live request made within the last `LIVE_PRIORITY_WINDOW_MS`.
pub open spec fn reserve_background(v: GateView, now: nat) -> (GateView, Result<nat, nat>) {
    let (v1, left) = limited_for(v, now);
    match left {
        Some(l) => (v1, Err(l)),
        None => {
            let recent = match v1.last_live {
                Some(t) => t + LIVE_PRIORITY_WINDOW_MS > now,
                None => false,
            };
            if recent {
                (v1, Err(LIVE_PRIORITY_WINDOW_MS as nat))
            } else {
                let start = later(v1.precache_gate, now);
                let wait = (start - now) as nat;
                if wait > MAX_QUEUE_AHEAD_MS {
                    (v1, Err(wait))
                } else {
                    (GateView { precache_gate: (start + BACKGROUND_PACING_MS) as nat, ..v1 }, Ok(wait))
                }
            }
        },
    }
}

/// The largest time a request gate ever holds.
pub open spec fn time_bound() -> nat {
    (CLOCK_LIMIT_MS + 0x10_0000) as nat
}

/// The request gate.
pub struct RequestGate {
    gate: u64,
    precache_gate: u64,
    limited_until: Option<u64>,
    last_live: Option<u64>,
}

impl View for RequestGate {
    type V = GateView;

    closed spec fn view(&self) -> GateView {
        GateView {
            gate: self.gate as nat,
            precache_gate: self.precache_gate as nat,
            limited_until: match self.limited_until {
                Some(t) => Some(t as nat),
                None => None,
            },
            last_live: match self.last_live {
                Some(t) => Some(t as nat),
                None => None,
            },
        }
    }
}

impl RequestGate {
    #[verifier::type_invariant]
    spec fn times_in_range(&self) -> bool {
        &&& self.gate <= time_bound()
        &&& self.precache_gate <= time_bound()
        &&& (self.limited_until matches Some(t) ==> t <= time_bound())
        &&& (self.last_live matches Some(t) ==> t <= time_bound())
    }

    /// A gate with both queues open at `now` and no live request made yet.
    pub fn new(now: u64) -> (r: RequestGate)
        requires
            now <= CLOCK_LIMIT_MS,
        ensures
            r@ == (GateView { gate: now as nat, precache_gate: now as nat, limited_until: None, last_live: None }),
    {
        RequestGate { gate: now, precache_gate: now, limited_until: None, last_live: None }
    }

    /// When the next live request may start.
    pub fn next_live_slot(&self) -> (r: u64)
        ensures
            r == self@.gate,
    {
        self.gate
    }

    /// What is left of a server back-off at `now`; an expired one is forgotten.
    pub fn rate_limited_for(&mut self, now: u64) -> (r: Option<u64>)
        requires
            now <= CLOCK_LIMIT_MS,
        ensures
            final(self)@ == limited_for(old(self)@, now as nat).0,
            r matches Some(l) ==> limited_for(old(self)@, now as nat).1 == Some(l as nat),
            r is None ==> limited_for(old(self)@, now as nat).1 is None,
    {
        proof {
            use_type_invariant(&*self);
        }
        match self.limited_until {
            Some(until) => {
                if until > now {
                    Some(until - now)
                } else {
                    self.limited_until = None;
                    None
                }
            },
            None => None,
        }
    }

    fn note_rate_limit(&mut self, now: u64, after: u64)
        requires
            now <= CLOCK_LIMIT_MS,
        ensures
            final(self)@ == note_limit(old(self)@, now as nat, after as nat),
    {
        proof {
            use_type_invariant(&*self);
        }
        let clamped = if after < MAX_BACKOFF_MS { after } else { MAX_BACKOFF_MS };
        let until = now + clamped;
        match self.limited_until {
            Some(previous) => {
                if previous < until {
                    self.limited_until = Some(until);
                }
            },
            None => {
                self.limited_until = Some(until);
            },
        }
    }

    /// Records a rate-limit answer received at `now` asking to wait `after`
    /// (clamped to 15 minutes): both queues close until then.
    pub fn back_off(&mut self, now: u64, after: u64)
        requires
            now <= CLOCK_LIMIT_MS,
        ensures
            final(self)@ == backed_off(old(self)@, now as nat, after as nat),
    {
        self.note_rate_limit(now, after);
        proof {
            use_type_invariant(&*self);
        }
        let clamped = if after < MAX_BACKOFF_MS { after } else { MAX_BACKOFF_MS };
        let until = now + clamped;
        if self.gate < until {
            self.gate = until;
        }
    }

    /// Reserves a slot for a live request at `now`: `Ok` with how long to wait
    /// before sending it, or `Err` with how long the queue is closed for.
    pub fn try_reserve_slot(&mut self, now: u64) -> (r: Result<u64, u64>)
        requires
            now <= CLOCK_LIMIT_MS,
        ensures
            final(self)@ == reserve_live(old(self)@, now as nat).0,
            r matches Ok(w) ==> reserve_live(old(self)@, now as nat).1 == Ok::<nat, nat>(w as nat),
            r matches Err(w) ==> reserve_live(old(self)@, now as nat).1 == Err::<nat, nat>(w as nat),
    {
        if let Some(left) = self.rate_limited_for(now) {
            return Err(left);
        }
        proof {
            use_type_invariant(&*self);
        }
        self.last_live = Some(now);
        let start = if self.gate >= now { self.gate } else { now };
        let wait = start - now;
        if wait > MAX_QUEUE_AHEAD_MS {
            return Err(wait);
        }
        self.gate = start + REQUEST_SPACING_MS;
        Ok(wait)
    }

    /// Reserves a slot for a background request at `now`, yielding to live
    /// requests made in the last 100 ms.
    pub fn try_reserve_precache_slot(&mut self, now: u64) -> (r: Result<u64, u64>)
        requires
            now <= CLOCK_LIMIT_MS,
        ensures
            final(self)@ == reserve_background(old(self)@, now as nat).0,
            r matches Ok(w) ==> reserve_background(old(self)@, now as nat).1 == Ok::<nat, nat>(w as nat),
            r matches Err(w) ==> reserve_background(old(self)@, now as nat).1 == Err::<nat, nat>(w as nat),
    {
        if let Some(left) = self.rate_limited_for(now) {
            return Err(left);
        }
        proof {
            use_type_invariant(&*self);
        }
        let recent = match self.last_live {
            Some(t) => t + LIVE_PRIORITY_WINDOW_MS > now,
            None => false,
        };
        if recent {
            return Err(LIVE_PRIORITY_WINDOW_MS);
        }
        let start = if self.precache_gate >= now { self.precache_gate } else { now };
        let wait = start - now;
        if wait > MAX_QUEUE_AHEAD_MS {
            return Err(wait);
        }
        self.precache_gate = start + BACKGROUND_PACING_MS;
        Ok(wait)
    }
}

/// After a rate-limit answer at `now` asking to wait `after`, until that wait
/// (clamped to 15 minutes) has passed: the back-off reports at least the time
/// still to wait (the server's wait is honoured, never shortened), and both the
/// live and the background queue refuse with at least that wait.
pub proof fn a_back_off_parks_both_lanes(v: GateView, now: nat, after: nat, t: nat)
    requires
        now <= t < now + clamp_backoff(after),
    ensures
        limited_for(backed_off(v, now, after), t).1 matches Some(l) && l >= now + clamp_backoff(after) - t,
        reserve_live(backed_off(v, now, after), t).1 matches Err(w) && w >= now + clamp_backoff(after) - t,
        reserve_background(backed_off(v, now, after), t).1 matches Err(w) && w >= now + clamp_backoff(after) - t,
{
}

/// A granted request never waits longer than the queue limit (3 s), in either queue.
pub proof fn a_granted_wait_is_within_the_queue_limit(v: GateView, now: nat)
    ensures
        reserve_live(v, now).1 matches Ok(w) ==> w <= MAX_QUEUE_AHEAD_MS,
        reserve_background(v, now).1 matches Ok(w) ==> w <= MAX_QUEUE_AHEAD_MS,
{
}

/// Two live requests granted one after the other start at least
/// `REQUEST_SPACING_MS` apart, and so do two background requests with `BACKGROUND_PACING_MS`.
pub proof fn granted_requests_are_spaced_out(v: GateView, t1: nat, t2: nat)
    requires
        t1 <= t2,
    ensures
        ({
            let (v1, first) = reserve_live(v, t1);
            let second = reserve_live(v1, t2).1;
            first matches Ok(w1) ==> (second matches Ok(w2) ==> t2 + w2 >= t1 + w1 + REQUEST_SPACING_MS)
        }),
        ({
            let (v1, first) = reserve_background(v, t1);
            let second = reserve_background(v1, t2).1;
            first matches Ok(w1) ==> (second matches Ok(w2) ==> t2 + w2 >= t1 + w1 + BACKGROUND_PACING_MS)
        }),
{
}

/// However long a server asks to wait, one answer moves the back-off and the
/// live queue at most 15 minutes past `now`.
pub proof fn a_huge_back_off_is_clamped(v: GateView, now: nat, after: nat)
    ensures
        backed_off(v, now, after).gate <= later(v.gate, (now + MAX_BACKOFF_MS) as nat),
        backed_off(v, now, after).limited_until matches Some(u) && u <= match v.limited_until {
            Some(p) => later(p, (now + MAX_BACKOFF_MS) as nat),
            None => (now + MAX_BACKOFF_MS) as nat,
        },
{
}

/// `n` live reservations in a row at the same instant, and how many were granted.
pub open spec fn reserve_burst(v: GateView, now: nat, n: nat) -> (GateView, nat)
    decreases n,
{
    if n == 0 {
        (v, 0)
    } else {
        let (v1, r) = reserve_live(v, now);
        let (v2, granted) = reserve_burst(v1, now, (n - 1) as nat);
        (v2, if r is Ok { granted + 1 } else { granted })
    }
}

/// How many more live requests fit in the queue at `now`.
pub open spec fn room_left(v: GateView, now: nat) -> nat {
    let ahead: int = if v.gate >= now { v.gate - now } else { 0 };
    if ahead > MAX_QUEUE_AHEAD_MS { 0 } else { ((MAX_QUEUE_AHEAD_MS - ahead) / (REQUEST_SPACING_MS as int) + 1) as nat }
}

proof fn lemma_burst_bounded(v: GateView, now: nat, n: nat)
    ensures
        reserve_burst(v, now, n).1 <= room_left(v, now),
    decreases n,
{
    if n > 0 {
        let (v1, r) = reserve_live(v, now);
        lemma_burst_bounded(v1, now, (n - 1) as nat);
        if r is Ok {
            let ahead: int = if v.gate >= now { v.gate - now } else { 0 };
            assert(v1.gate == now + ahead + REQUEST_SPACING_MS);
            if ahead + 15 <= 3000 {
                assert((3000 - ahead) / 15 == (3000 - ahead - 15) / 15 + 1);
            }
        } else {
            assert(room_left(v1, now) <= room_left(v, now));
        }
    }
}

/// A burst of live requests at one instant is refused once the queue reaches
/// three seconds: however many arrive, at most 201 are granted.
pub proof fn a_burst_stops_at_the_queue_limit(v: GateView, now: nat, n: nat)
    ensures
        reserve_burst(v, now, n).1 <= 201,
{
    lemma_burst_bounded(v, now, n);
}

} // verus!
