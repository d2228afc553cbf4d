//! Price aggregation: the freshest known quote per venue, a monotonic
//! timestamp filter on incoming quotes, and a per-venue circuit breaker that
//! keeps consistently failing venues out of aggregation.
//!
//! One aggregator instance serves one symbol; venues are identified by their
//! index in the instance.

use vstd::prelude::*;
use crate::errors::CoreError;

verus! {

/// Which way a best-price query looks: a sell-side query wants the highest
/// bid, a buy-side query the lowest ask.
#[derive(Clone, Copy, Debug, PartialEq, Eq, Structural)]
pub enum Side {
    Buy,
    Sell,
}

/// One venue's most recent view of the symbol's price. `confidence` is the
/// width of the price's error bound and is present only for oracle-sourced
/// quotes.
#[derive(Clone, Copy, Debug, PartialEq, Eq)]
pub struct PriceQuote {
    pub venue: usize,
    pub price: u64,
    pub bid_price: u64,
    pub ask_price: u64,
    pub timestamp: u64,
    pub confidence: Option<u64>,
}

/// The circuit breaker's state for one venue.
#[derive(Clone, Copy, Debug, PartialEq, Eq, Structural)]
pub enum CircuitState {
    /// The venue is healthy and participates in aggregation.
    Closed,
    /// The venue failed repeatedly; calls to it are suspended.
    Open,
    /// The cool-down elapsed; one probe call decides the circuit's fate.
    HalfOpen,
}

/// Failure bookkeeping for one venue, owned by the aggregator.
#[derive(Clone, Copy, Debug, PartialEq, Eq, Structural)]
pub struct VenueHealth {
    pub consecutive_failures: u64,
    pub circuit: CircuitState,
    pub last_success_at: u64,
    pub opened_at: u64,
}

impl VenueHealth {
    /// The state of a venue that has never been called.
    pub open spec fn initial_spec() -> VenueHealth {
        VenueHealth { consecutive_failures: 0, circuit: CircuitState::Closed, last_success_at: 0, opened_at: 0 }
    }

    pub fn initial() -> (r: VenueHealth)
        ensures
            r == VenueHealth::initial_spec(),
    {
        VenueHealth { consecutive_failures: 0, circuit: CircuitState::Closed, last_success_at: 0, opened_at: 0 }
    }

    /// The health after one more adapter failure at `now`, with `limit`
    /// consecutive failures allowed before the circuit opens. A failure during
    /// a half-open probe re-opens the circuit at once.
    pub open spec fn failed_spec(self, now: u64, limit: u64) -> VenueHealth {
        let n = if self.consecutive_failures == u64::MAX { u64::MAX } else { (self.consecutive_failures + 1) as u64 };
        let opens = match self.circuit {
            CircuitState::Closed => n >= limit,
            CircuitState::HalfOpen => true,
            CircuitState::Open => false,
        };
        VenueHealth {
            consecutive_failures: n,
            circuit: if opens || self.circuit is Open { CircuitState::Open } else { CircuitState::Closed },
            last_success_at: self.last_success_at,
            opened_at: if opens { now } else { self.opened_at },
        }
    }

    /// The health after a successful adapter call at `now`: the failure count
    /// resets and the circuit closes (a successful half-open probe closes it).
    pub open spec fn succeeded_spec(self, now: u64) -> VenueHealth {
        VenueHealth { consecutive_failures: 0, circuit: CircuitState::Closed, last_success_at: now, opened_at: self.opened_at }
    }
}

/// The health of `n` venues after `count` further consecutive failures of one
/// venue, folded one failure at a time.
pub open spec fn after_failures(h: VenueHealth, count: nat, now: u64, limit: u64) -> VenueHealth
    decreases count,
{
    if count == 0 {
        h
    } else {
        after_failures(h, (count - 1) as nat, now, limit).failed_spec(now, limit)
    }
}

/// Circuit-breaker law: starting from a closed circuit, once the number of
/// further consecutive failures reaches the configured limit, the circuit is
/// open; short of the limit it is still closed and the failures were counted.
pub proof fn lemma_circuit_opens_after_limit(h: VenueHealth, count: nat, now: u64, limit: u64)
    requires
        h.circuit is Closed,
        1 <= limit,
        h.consecutive_failures < limit,
        h.consecutive_failures + count <= u64::MAX,
    ensures
        h.consecutive_failures + count >= limit ==> after_failures(h, count, now, limit).circuit is Open,
        h.consecutive_failures + count < limit ==> {
            &&& after_failures(h, count, now, limit).circuit is Closed
            &&& after_failures(h, count, now, limit).consecutive_failures == h.consecutive_failures + count
        },
    decreases count,
{
    if count > 0 {
        lemma_circuit_opens_after_limit(h, (count - 1) as nat, now, limit);
    }
}

/// The live quote cache and venue health for one symbol across a fixed set of
/// venues.
pub struct PriceAggregator {
    pub quotes: Vec<Option<PriceQuote>>,
    pub health: Vec<VenueHealth>,
    pub subscribed: Vec<bool>,
}

impl PriceAggregator {
    /// One entry per venue, and every cached quote tagged with its own venue.
    pub open spec fn well_formed(self) -> bool {
        &&& self.quotes@.len() == self.health@.len()
        &&& self.quotes@.len() == self.subscribed@.len()
        &&& forall|i: int| 0 <= i < self.quotes@.len() && self.quotes@[i] is Some
                ==> (#[trigger] self.quotes@[i])->0.venue == i
    }

    pub open spec fn num_venues(self) -> nat {
        self.quotes@.len()
    }

    pub open spec fn spec_quote(self, i: int) -> Option<PriceQuote> {
        self.quotes@[i]
    }

    pub open spec fn spec_health(self, i: int) -> VenueHealth {
        self.health@[i]
    }

    /// A quote stamped `ts` is still fresh at `now` under the given staleness
    /// window.
    pub open spec fn is_fresh(ts: u64, now: u64, window_ms: u64) -> bool {
        now <= ts + window_ms
    }

    /// Venue `i` takes part in aggregation: it holds a quote that is fresh at
    /// `now`, and its circuit is closed.
    pub open spec fn eligible(self, i: int, now: u64, window_ms: u64) -> bool {
        &&& 0 <= i < self.quotes@.len()
        &&& self.quotes@[i] is Some
        &&& Self::is_fresh(self.quotes@[i]->0.timestamp, now, window_ms)
        &&& self.health@[i].circuit is Closed
    }

    /// The price venue `i`'s quote offers to the given side: its bid to a
    /// seller, its ask to a buyer.
    pub open spec fn side_price(self, i: int, side: Side) -> u64 {
        if side is Sell {
            self.quotes@[i]->0.bid_price
        } else {
            self.quotes@[i]->0.ask_price
        }
    }

    /// `a` is at least as good an answer as `b` for the given side.
    pub open spec fn side_at_least(side: Side, a: u64, b: u64) -> bool {
        if side is Sell {
            a >= b
        } else {
            a <= b
        }
    }

    pub fn new(num_venues: usize) -> (r: PriceAggregator)
        ensures
            r.well_formed(),
            r.num_venues() == num_venues,
            forall|i: int| 0 <= i < num_venues ==> r.spec_quote(i) is None,
            forall|i: int| 0 <= i < num_venues ==> r.spec_health(i) == VenueHealth::initial_spec(),
    {
        let mut quotes: Vec<Option<PriceQuote>> = Vec::new();
        let mut health: Vec<VenueHealth> = Vec::new();
        let mut subscribed: Vec<bool> = Vec::new();
        let mut i: usize = 0;
        while i < num_venues
            invariant
                i <= num_venues,
                quotes@.len() == i,
                health@.len() == i,
                subscribed@.len() == i,
                forall|j: int| 0 <= j < i ==> quotes@[j] is None,
                forall|j: int| 0 <= j < i ==> health@[j] == VenueHealth::initial_spec(),
                forall|j: int| 0 <= j < i ==> subscribed@[j] == false,
            decreases num_venues - i,
        {
            quotes.push(None);
            health.push(VenueHealth::initial());
            subscribed.push(false);
            i = i + 1;
        }
        PriceAggregator { quotes, health, subscribed }
    }

    /// Registers the continuous quote feed for a venue; the feed may be torn
    /// down and registered again at any time.
    pub fn subscribe(&mut self, venue: usize)
        requires
            old(self).well_formed(),
            venue < old(self).num_venues(),
        ensures
            final(self).well_formed(),
            final(self).subscribed@ == old(self).subscribed@.update(venue as int, true),
            final(self).quotes@ == old(self).quotes@,
            final(self).health@ == old(self).health@,
    {
        self.subscribed.set(venue, true);
    }

    /// Tears a venue's quote feed down. The venue's circuit-breaker counters
    /// are left exactly as they were, and the cached quote stays until it
    /// goes stale, so a later resubscription resumes consistently.
    pub fn unsubscribe(&mut self, venue: usize)
        requires
            old(self).well_formed(),
            venue < old(self).num_venues(),
        ensures
            final(self).well_formed(),
            final(self).subscribed@ == old(self).subscribed@.update(venue as int, false),
            final(self).quotes@ == old(self).quotes@,
            final(self).health@ == old(self).health@,
    {
        self.subscribed.set(venue, false);
    }

    /// Offers a freshly delivered quote to the cache. The quote is accepted
    /// only when its timestamp is strictly newer than the cached one for its
    /// venue; out-of-order or duplicate timestamps are discarded, so cached
    /// timestamps grow monotonically.
    pub fn apply_quote(&mut self, q: PriceQuote) -> (accepted: bool)
        requires
            old(self).well_formed(),
            q.venue < old(self).num_venues(),
        ensures
            final(self).well_formed(),
            accepted <==> (old(self).spec_quote(q.venue as int) matches Some(p) ==> p.timestamp < q.timestamp),
            accepted ==> final(self).quotes@ == old(self).quotes@.update(q.venue as int, Some(q)),
            !accepted ==> final(self).quotes@ == old(self).quotes@,
            final(self).health@ == old(self).health@,
            final(self).subscribed@ == old(self).subscribed@,
    {
        let accepted = match &self.quotes[q.venue] {
            Option::None => true,
            Option::Some(p) => p.timestamp < q.timestamp,
        };
        if accepted {
            self.quotes.set(q.venue, Some(q));
        }
        accepted
    }

    /// The best fresh price for one side of the market: the maximum bid for a
    /// sell-side query, the minimum ask for a buy-side query, together with
    /// the venue offering it. Venues with a stale or missing quote, and venues
    /// whose circuit is not closed, take no part; the query fails with
    /// `NoPriceAvailable` exactly when no venue is eligible. Among venues
    /// tied at the best price, the lowest venue index wins.
    pub fn get_best_price(&self, now: u64, window_ms: u64, side: Side) -> (r: Result<(usize, u64), CoreError>)
        requires
            self.well_formed(),
        ensures
            r is Err <==> (forall|i: int| !self.eligible(i, now, window_ms)),
            r matches Err(e) ==> e == CoreError::NoPriceAvailable,
            r matches Ok((v, p)) ==> {
                &&& self.eligible(v as int, now, window_ms)
                &&& p == self.side_price(v as int, side)
                &&& forall|j: int| self.eligible(j, now, window_ms)
                        ==> Self::side_at_least(side, p, self.side_price(j, side))
                &&& forall|j: int| 0 <= j < v && self.eligible(j, now, window_ms)
                        ==> !Self::side_at_least(side, self.side_price(j, side), p)
            },
    {
        let n = self.quotes.len();
        let mut best: Option<(usize, u64)> = None;
        let mut i: usize = 0;
        while i < n
            invariant
                self.well_formed(),
                n == self.num_venues(),
                i <= n,
                best is None ==> forall|j: int| 0 <= j < i ==> !self.eligible(j, now, window_ms),
                best matches Some((v, p)) ==> {
                    &&& v < i
                    &&& self.eligible(v as int, now, window_ms)
                    &&& p == self.side_price(v as int, side)
                    &&& forall|j: int| 0 <= j < i && self.eligible(j, now, window_ms)
                            ==> Self::side_at_least(side, p, self.side_price(j, side))
                    &&& forall|j: int| 0 <= j < v && self.eligible(j, now, window_ms)
                            ==> !Self::side_at_least(side, self.side_price(j, side), p)
                },
            decreases n - i,
        {
            let eligible_here = match &self.quotes[i] {
                Option::None => false,
                Option::Some(q) => {
                    now <= q.timestamp || now - q.timestamp <= window_ms
                },
            };
            let circuit_closed = match self.health[i].circuit {
                CircuitState::Closed => true,
                _ => false,
            };
            if eligible_here && circuit_closed {
                let q = self.quotes[i].as_ref().unwrap();
                let price = match side {
                    Side::Sell => q.bid_price,
                    Side::Buy => q.ask_price,
                };
                let take = match &best {
                    Option::None => true,
                    Option::Some((_, bp)) => match side {
                        Side::Sell => price > *bp,
                        Side::Buy => price < *bp,
                    },
                };
                if take {
                    best = Some((i, price));
                }
            }
            i = i + 1;
        }
        match best {
            Option::Some((v, p)) => Ok((v, p)),
            Option::None => Err(CoreError::NoPriceAvailable),
        }
    }

    /// Records a failed adapter call against a venue; returns whether this
    /// failure opened the venue's circuit (so the caller can emit a
    /// circuit-opened event).
    pub fn record_failure(&mut self, venue: usize, now: u64, failure_limit: u64) -> (opened: bool)
        requires
            old(self).well_formed(),
            venue < old(self).num_venues(),
        ensures
            final(self).well_formed(),
            final(self).health@ == old(self).health@.update(venue as int,
                old(self).spec_health(venue as int).failed_spec(now, failure_limit)),
            final(self).quotes@ == old(self).quotes@,
            final(self).subscribed@ == old(self).subscribed@,
            opened <==> (!(old(self).spec_health(venue as int).circuit is Open)
                && final(self).spec_health(venue as int).circuit is Open),
    {
        let h = self.health[venue];
        let n = if h.consecutive_failures == u64::MAX { u64::MAX } else { h.consecutive_failures + 1 };
        let opens = match h.circuit {
            CircuitState::Closed => n >= failure_limit,
            CircuitState::HalfOpen => true,
            CircuitState::Open => false,
        };
        let was_open = match h.circuit {
            CircuitState::Open => true,
            _ => false,
        };
        let updated = VenueHealth {
            consecutive_failures: n,
            circuit: if opens || was_open { CircuitState::Open } else { CircuitState::Closed },
            last_success_at: h.last_success_at,
            opened_at: if opens { now } else { h.opened_at },
        };
        self.health.set(venue, updated);
        opens
    }

    /// Records a successful adapter call: the failure count resets and the
    /// circuit closes. Returns whether the circuit was not closed before (so
    /// the caller can emit a circuit-closed event).
    pub fn record_success(&mut self, venue: usize, now: u64) -> (closed: bool)
        requires
            old(self).well_formed(),
            venue < old(self).num_venues(),
        ensures
            final(self).well_formed(),
            final(self).health@ == old(self).health@.update(venue as int,
                old(self).spec_health(venue as int).succeeded_spec(now)),
            final(self).quotes@ == old(self).quotes@,
            final(self).subscribed@ == old(self).subscribed@,
            closed <==> !(old(self).spec_health(venue as int).circuit is Closed),
    {
        let h = self.health[venue];
        let was_closed = match h.circuit {
            CircuitState::Closed => true,
            _ => false,
        };
        let updated = VenueHealth {
            consecutive_failures: 0,
            circuit: CircuitState::Closed,
            last_success_at: now,
            opened_at: h.opened_at,
        };
        self.health.set(venue, updated);
        !was_closed
    }

    /// Moves a venue whose cool-down has elapsed from `Open` to `HalfOpen`,
    /// allowing one probe call. Returns whether the transition happened.
    pub fn allow_probe(&mut self, venue: usize, now: u64, cooldown_ms: u64) -> (half_opened: bool)
        requires
            old(self).well_formed(),
            venue < old(self).num_venues(),
        ensures
            final(self).well_formed(),
            final(self).quotes@ == old(self).quotes@,
            final(self).subscribed@ == old(self).subscribed@,
            half_opened <==> (old(self).spec_health(venue as int).circuit is Open
                && now >= old(self).spec_health(venue as int).opened_at + cooldown_ms),
            half_opened ==> final(self).health@ == old(self).health@.update(venue as int,
                VenueHealth {
                    circuit: CircuitState::HalfOpen,
                    ..old(self).spec_health(venue as int)
                }),
            !half_opened ==> final(self).health@ == old(self).health@,
    {
        let h = self.health[venue];
        let is_open = match h.circuit {
            CircuitState::Open => true,
            _ => false,
        };
        let elapsed = now >= h.opened_at && now - h.opened_at >= cooldown_ms;
        if is_open && elapsed {
            let updated = VenueHealth { circuit: CircuitState::HalfOpen, ..h };
            self.health.set(venue, updated);
            true
        } else {
            false
        }
    }

    /// A venue whose circuit is not closed never takes part in aggregation,
    /// whatever quote it holds.
    pub proof fn lemma_open_circuit_excluded(self, i: int, now: u64, window_ms: u64)
        requires
            !(self.spec_health(i).circuit is Closed),
        ensures
            !self.eligible(i, now, window_ms),
    {
    }
}

} // verus!
