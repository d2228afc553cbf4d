//! Two-leg arbitrage execution with partial-failure containment. The engine
//! decides; the caller performs the venue calls and feeds the outcomes back
//! as events. Success needs both legs filled; a leg that fails transiently is
//! retried a bounded number of times with growing backoff; a partial fill is
//! recorded as open exposure — never discarded — and signalled for explicit
//! reconciliation instead of being retried automatically.

use vstd::prelude::*;
use crate::detector::ArbitrageOpportunity;
use crate::errors::{CoreError, VenueErrorKind};
use crate::events::EngineEvent;
use crate::math::lemma_u64_mul_fits;

verus! {

/// The two legs of an execution: buy on the buy venue, sell on the sell
/// venue.
#[derive(Clone, Copy, Debug, PartialEq, Eq, Structural)]
pub enum Leg {
    Buy,
    Sell,
}

impl Leg {
    pub open spec fn other_spec(self) -> Leg {
        if self is Buy {
            Leg::Sell
        } else {
            Leg::Buy
        }
    }

    pub fn other(&self) -> (r: Leg)
        ensures
            r == self.other_spec(),
    {
        match self {
            Leg::Buy => Leg::Sell,
            Leg::Sell => Leg::Buy,
        }
    }
}

/// Where one leg stands.
#[derive(Clone, Copy, Debug, PartialEq, Eq, Structural)]
pub enum LegStatus {
    /// The order is placed and awaits a fill.
    Pending,
    /// The order filled.
    Filled,
    /// The order failed for good (fatal error, retries exhausted, or past
    /// the deadline).
    Failed,
    /// A cancellation was requested and its outcome is awaited.
    CancelRequested,
    /// The order was cancelled before it filled.
    Cancelled,
}

/// One leg's bookkeeping. The fill fields are meaningful only once the leg is
/// `Filled`.
#[derive(Clone, Copy, Debug, PartialEq, Eq, Structural)]
pub struct LegState {
    pub status: LegStatus,
    pub attempts: u64,
    pub fill_price: u64,
    pub fill_quantity: u64,
}

/// How a finished execution ended.
#[derive(Clone, Copy, Debug, PartialEq, Eq, Structural)]
pub enum ExecOutcome {
    /// Both legs filled.
    Success,
    /// Neither leg filled; nothing is at risk.
    Aborted,
    /// Exactly one leg filled: an inventory imbalance that needs
    /// reconciliation.
    OpenExposure,
}

/// What the caller must do next after feeding an event in.
#[derive(Clone, Copy, Debug, PartialEq, Eq, Structural)]
pub enum ExecAction {
    /// Nothing to do; wait for more venue events.
    Wait,
    /// Re-place the given leg's order after the backoff.
    Retry { leg: Leg, backoff_ms: u64 },
    /// Try to cancel the given leg's order.
    Cancel { leg: Leg },
    /// The execution ended in an open exposure; the record was appended to
    /// the log and reconciliation must be signalled.
    ExposureRecorded { exposure: OpenExposure },
    /// The execution is done; emit its completion event.
    Finished,
}

/// An unreconciled inventory imbalance: one leg filled while the other ended
/// without a fill.
#[derive(Clone, Copy, Debug, PartialEq, Eq, Structural)]
pub struct OpenExposure {
    /// The leg that filled.
    pub leg: Leg,
    /// The venue the filled leg ran on.
    pub venue: usize,
    pub price: u64,
    pub quantity: u64,
    pub recorded_at: u64,
    pub resolved: bool,
}

/// Every open exposure ever recorded. Records are only appended or marked
/// resolved, never removed.
pub struct ExposureLog {
    pub records: Vec<OpenExposure>,
}

/// The unresolved records of a log, in order.
pub open spec fn unresolved_spec(s: Seq<OpenExposure>) -> Seq<OpenExposure>
    decreases s.len(),
{
    if s.len() == 0 {
        Seq::empty()
    } else {
        let prefix = unresolved_spec(s.drop_last());
        if !s.last().resolved {
            prefix.push(s.last())
        } else {
            prefix
        }
    }
}

/// Every record the unresolved query reports is an unresolved record of the
/// log.
pub proof fn lemma_unresolved_sound(s: Seq<OpenExposure>, j: int)
    requires
        0 <= j < unresolved_spec(s).len(),
    ensures
        exists|k: int| 0 <= k < s.len() && #[trigger] s[k] == unresolved_spec(s)[j]
            && !s[k].resolved,
    decreases s.len(),
{
    let p = unresolved_spec(s.drop_last());
    if !s.last().resolved && j == p.len() {
        assert(s[s.len() - 1] == unresolved_spec(s)[j]);
    } else {
        lemma_unresolved_sound(s.drop_last(), j);
        let k = choose|k: int| 0 <= k < s.drop_last().len()
            && #[trigger] s.drop_last()[k] == unresolved_spec(s.drop_last())[j]
            && !s.drop_last()[k].resolved;
        assert(s[k] == s.drop_last()[k]);
    }
}

/// Every unresolved record of the log is reported by the unresolved query: a
/// recorded exposure is never dropped.
pub proof fn lemma_unresolved_complete(s: Seq<OpenExposure>, k: int)
    requires
        0 <= k < s.len(),
        !s[k].resolved,
    ensures
        unresolved_spec(s).contains(s[k]),
    decreases s.len(),
{
    let p = unresolved_spec(s.drop_last());
    if k == s.len() - 1 {
        assert(unresolved_spec(s)[p.len() as int] == s[k]);
    } else {
        assert(s.drop_last()[k] == s[k]);
        lemma_unresolved_complete(s.drop_last(), k);
        let w = choose|w: int| 0 <= w < p.len() && p[w] == s.drop_last()[k];
        assert(unresolved_spec(s)[w] == s[k]);
    }
}

impl ExposureLog {
    pub fn new() -> (r: ExposureLog)
        ensures
            r.records@.len() == 0,
    {
        ExposureLog { records: Vec::new() }
    }

    /// Appends a record; the log only ever grows.
    pub fn record(&mut self, e: OpenExposure) -> (idx: usize)
        ensures
            final(self).records@ == old(self).records@.push(e),
            idx == old(self).records@.len(),
    {
        let idx = self.records.len();
        self.records.push(e);
        idx
    }

    /// The unresolved exposures, in the order they were recorded.
    pub fn unresolved(&self) -> (r: Vec<OpenExposure>)
        ensures
            r@ == unresolved_spec(self.records@),
    {
        let n = self.records.len();
        let mut r: Vec<OpenExposure> = Vec::new();
        let mut i: usize = 0;
        while i < n
            invariant
                n == self.records@.len(),
                i <= n,
                r@ == unresolved_spec(self.records@.take(i as int)),
            decreases n - i,
        {
            if !self.records[i].resolved {
                r.push(self.records[i]);
            }
            proof {
                let t = self.records@.take(i + 1);
                assert(t.drop_last() =~= self.records@.take(i as int));
                assert(t.last() == self.records@[i as int]);
            }
            i = i + 1;
        }
        proof {
            assert(self.records@.take(n as int) =~= self.records@);
        }
        r
    }

    /// Marks one record reconciled.
    pub fn resolve(&mut self, idx: usize)
        requires
            idx < old(self).records@.len(),
        ensures
            final(self).records@ == old(self).records@.update(idx as int, OpenExposure {
                resolved: true,
                ..old(self).records@[idx as int]
            }),
    {
        let e = self.records[idx];
        self.records.set(idx, OpenExposure { resolved: true, ..e });
    }
}

/// The overall outcome a pair of leg statuses settles to: undecided while a
/// leg is still pending or being cancelled; success when both filled; open
/// exposure when exactly one filled; aborted when neither did.
pub open spec fn settle_spec(buy: LegStatus, sell: LegStatus) -> Option<ExecOutcome> {
    if buy is Pending || buy is CancelRequested || sell is Pending || sell is CancelRequested {
        None
    } else if buy is Filled && sell is Filled {
        Some(ExecOutcome::Success)
    } else if buy is Filled || sell is Filled {
        Some(ExecOutcome::OpenExposure)
    } else {
        Some(ExecOutcome::Aborted)
    }
}

/// The backoff before retry number `attempts + 1`: the base backoff grown
/// linearly with the attempts already made, saturating at the largest machine
/// value.
pub open spec fn backoff_spec(base_ms: u64, attempts: u64) -> int {
    vstd::math::min(base_ms * (attempts + 1), u64::MAX as int)
}

/// One in-flight two-leg execution; it owns the opportunity for its whole
/// duration.
pub struct ExecutionState {
    pub opportunity: ArbitrageOpportunity,
    pub buy: LegState,
    pub sell: LegState,
    pub deadline: u64,
    pub done: Option<ExecOutcome>,
}

impl ExecutionState {
    pub open spec fn leg_spec(self, l: Leg) -> LegState {
        if l is Buy {
            self.buy
        } else {
            self.sell
        }
    }

    /// The settled outcome always reflects the legs.
    pub open spec fn consistent(self) -> bool {
        self.done == settle_spec(self.buy.status, self.sell.status)
    }

    /// Validates an opportunity and opens an execution for it: the
    /// opportunity must not be stale (its detection time is re-checked
    /// against `max_age_ms`), the sell venue must hold the traded size in the
    /// base asset and the buy venue its cost in the quote asset. Fails with
    /// `StalePrice` exactly when the opportunity is too old, else with
    /// `InsufficientBalance` exactly when a balance is short. On success both
    /// legs are pending and the caller must place them concurrently, bounded
    /// by the returned state's deadline.
    pub fn start(
        opportunity: ArbitrageOpportunity,
        now: u64,
        max_age_ms: u64,
        execution_deadline_ms: u64,
        base_balance: u64,
        quote_balance: u64,
    ) -> (r: Result<ExecutionState, CoreError>)
        ensures
            r is Ok <==> {
                &&& now <= opportunity.detected_at + max_age_ms
                &&& base_balance >= opportunity.tradable_size
                &&& quote_balance as int >= opportunity.buy_price * opportunity.tradable_size
            },
            r matches Ok(s) ==> {
                &&& s.opportunity == opportunity
                &&& s.buy == (LegState {
                    status: LegStatus::Pending,
                    attempts: 0,
                    fill_price: 0,
                    fill_quantity: 0,
                })
                &&& s.sell == (LegState {
                    status: LegStatus::Pending,
                    attempts: 0,
                    fill_price: 0,
                    fill_quantity: 0,
                })
                &&& s.deadline == vstd::math::min(now + execution_deadline_ms, u64::MAX as int)
                &&& s.done is None
                &&& s.consistent()
            },
            r matches Err(e) ==> {
                &&& (e == CoreError::StalePrice <==> now > opportunity.detected_at + max_age_ms)
                &&& (e == CoreError::StalePrice || e == CoreError::InsufficientBalance)
            },
    {
        if now > opportunity.detected_at && now - opportunity.detected_at > max_age_ms {
            return Err(CoreError::StalePrice);
        }
        if base_balance < opportunity.tradable_size {
            return Err(CoreError::InsufficientBalance);
        }
        proof {
            lemma_u64_mul_fits(opportunity.buy_price, opportunity.tradable_size);
        }
        let cost: u128 = (opportunity.buy_price as u128) * (opportunity.tradable_size as u128);
        if (quote_balance as u128) < cost {
            return Err(CoreError::InsufficientBalance);
        }
        let deadline = if now <= u64::MAX - execution_deadline_ms {
            now + execution_deadline_ms
        } else {
            u64::MAX
        };
        let fresh_leg = LegState { status: LegStatus::Pending, attempts: 0, fill_price: 0, fill_quantity: 0 };
        Ok(ExecutionState {
            opportunity,
            buy: fresh_leg,
            sell: fresh_leg,
            deadline,
            done: None,
        })
    }

    fn set_leg(&mut self, l: Leg, st: LegState)
        ensures
            l is Buy ==> *final(self) == (ExecutionState { buy: st, ..*old(self) }),
            l is Sell ==> *final(self) == (ExecutionState { sell: st, ..*old(self) }),
    {
        match l {
            Leg::Buy => {
                self.buy = st;
            },
            Leg::Sell => {
                self.sell = st;
            },
        }
    }

    fn settle(&mut self)
        ensures
            *final(self) == (ExecutionState {
                done: settle_spec(old(self).buy.status, old(self).sell.status),
                ..*old(self)
            }),
    {
        let undecided = match (self.buy.status, self.sell.status) {
            (LegStatus::Pending, _) => true,
            (LegStatus::CancelRequested, _) => true,
            (_, LegStatus::Pending) => true,
            (_, LegStatus::CancelRequested) => true,
            _ => false,
        };
        if undecided {
            self.done = None;
        } else {
            let buy_filled = match self.buy.status {
                LegStatus::Filled => true,
                _ => false,
            };
            let sell_filled = match self.sell.status {
                LegStatus::Filled => true,
                _ => false,
            };
            self.done = if buy_filled && sell_filled {
                Some(ExecOutcome::Success)
            } else if buy_filled || sell_filled {
                Some(ExecOutcome::OpenExposure)
            } else {
                Some(ExecOutcome::Aborted)
            };
        }
    }

    /// A pending leg reports a fill. The execution completes successfully
    /// exactly when the other leg had already filled.
    pub fn on_leg_filled(&mut self, leg: Leg, price: u64, quantity: u64) -> (action: ExecAction)
        requires
            old(self).done is None,
            old(self).leg_spec(leg).status is Pending,
        ensures
            final(self).opportunity == old(self).opportunity,
            final(self).deadline == old(self).deadline,
            final(self).leg_spec(leg) == (LegState {
                status: LegStatus::Filled,
                fill_price: price,
                fill_quantity: quantity,
                ..old(self).leg_spec(leg)
            }),
            final(self).leg_spec(leg.other_spec()) == old(self).leg_spec(leg.other_spec()),
            final(self).done == settle_spec(final(self).buy.status, final(self).sell.status),
            action == (if old(self).leg_spec(leg.other_spec()).status is Filled {
                ExecAction::Finished
            } else {
                ExecAction::Wait
            }),
    {
        let cur = match leg {
            Leg::Buy => self.buy,
            Leg::Sell => self.sell,
        };
        self.set_leg(leg, LegState {
            status: LegStatus::Filled,
            fill_price: price,
            fill_quantity: quantity,
            ..cur
        });
        self.settle();
        let other = match leg.other() {
            Leg::Buy => self.buy,
            Leg::Sell => self.sell,
        };
        match other.status {
            LegStatus::Filled => ExecAction::Finished,
            _ => ExecAction::Wait,
        }
    }

    /// A pending leg reports a failure of the given kind at `now`.
    ///
    /// A transient failure within the retry budget and the deadline keeps the
    /// leg pending and asks the caller to re-place it after a backoff. Any
    /// other failure is final for that leg: if the other leg has filled, the
    /// imbalance is appended to the exposure log and reconciliation is
    /// signalled — the opportunity is not retried; if the other leg is still
    /// pending, its cancellation is requested; otherwise the execution just
    /// settles.
    pub fn on_leg_failed(
        &mut self,
        log: &mut ExposureLog,
        leg: Leg,
        kind: VenueErrorKind,
        now: u64,
        max_retry_attempts: u64,
        retry_backoff_base_ms: u64,
    ) -> (action: ExecAction)
        requires
            old(self).done is None,
            old(self).leg_spec(leg).status is Pending,
        ensures
            final(self).opportunity == old(self).opportunity,
            final(self).deadline == old(self).deadline,
            final(self).done == settle_spec(final(self).buy.status, final(self).sell.status),
            ({
                let retry = kind.is_transient_spec()
                    && old(self).leg_spec(leg).attempts < max_retry_attempts
                    && now < old(self).deadline;
                let other = leg.other_spec();
                if retry {
                    &&& final(self).leg_spec(leg) == (LegState {
                        attempts: (old(self).leg_spec(leg).attempts + 1) as u64,
                        ..old(self).leg_spec(leg)
                    })
                    &&& final(self).leg_spec(other) == old(self).leg_spec(other)
                    &&& final(log).records@ == old(log).records@
                    &&& action == (ExecAction::Retry {
                        leg,
                        backoff_ms: backoff_spec(
                            retry_backoff_base_ms,
                            old(self).leg_spec(leg).attempts,
                        ) as u64,
                    })
                } else {
                    &&& final(self).leg_spec(leg) == (LegState {
                        status: LegStatus::Failed,
                        ..old(self).leg_spec(leg)
                    })
                    &&& (old(self).leg_spec(other).status is Pending ==> {
                        &&& final(self).leg_spec(other) == (LegState {
                            status: LegStatus::CancelRequested,
                            ..old(self).leg_spec(other)
                        })
                        &&& final(log).records@ == old(log).records@
                        &&& action == (ExecAction::Cancel { leg: other })
                    })
                    &&& (old(self).leg_spec(other).status is Filled ==> {
                        &&& final(self).leg_spec(other) == old(self).leg_spec(other)
                        &&& final(self).done == Some(ExecOutcome::OpenExposure)
                        &&& final(log).records@ == old(log).records@.push(
                            exposure_of(*old(self), other, now))
                        &&& action == (ExecAction::ExposureRecorded {
                            exposure: exposure_of(*old(self), other, now),
                        })
                    })
                    &&& (!(old(self).leg_spec(other).status is Pending)
                        && !(old(self).leg_spec(other).status is Filled) ==> {
                        &&& final(self).leg_spec(other) == old(self).leg_spec(other)
                        &&& final(log).records@ == old(log).records@
                        &&& action == (if final(self).done is Some {
                            ExecAction::Finished
                        } else {
                            ExecAction::Wait
                        })
                    })
                }
            }),
    {
        let cur = match leg {
            Leg::Buy => self.buy,
            Leg::Sell => self.sell,
        };
        let retry = kind.is_transient() && cur.attempts < max_retry_attempts && now
            < self.deadline;
        if retry {
            let next: u64 = cur.attempts + 1;
            proof {
                lemma_saturating_mul(retry_backoff_base_ms, next);
            }
            let backoff = if retry_backoff_base_ms <= u64::MAX / next {
                retry_backoff_base_ms * next
            } else {
                u64::MAX
            };
            self.set_leg(leg, LegState { attempts: next, ..cur });
            self.settle();
            return ExecAction::Retry { leg, backoff_ms: backoff };
        }
        self.set_leg(leg, LegState { status: LegStatus::Failed, ..cur });
        let other_leg = leg.other();
        let other = match other_leg {
            Leg::Buy => self.buy,
            Leg::Sell => self.sell,
        };
        match other.status {
            LegStatus::Pending => {
                self.set_leg(other_leg, LegState { status: LegStatus::CancelRequested, ..other });
                self.settle();
                ExecAction::Cancel { leg: other_leg }
            },
            LegStatus::Filled => {
                self.settle();
                let venue = match other_leg {
                    Leg::Buy => self.opportunity.buy_venue,
                    Leg::Sell => self.opportunity.sell_venue,
                };
                let exposure = OpenExposure {
                    leg: other_leg,
                    venue,
                    price: other.fill_price,
                    quantity: other.fill_quantity,
                    recorded_at: now,
                    resolved: false,
                };
                log.record(exposure);
                ExecAction::ExposureRecorded { exposure }
            },
            _ => {
                self.settle();
                match self.done {
                    Option::Some(_) => ExecAction::Finished,
                    Option::None => ExecAction::Wait,
                }
            },
        }
    }

    /// The outcome of a requested cancellation: `fill` is `None` when the
    /// order was cancelled in time, and carries the fill when the order had
    /// already filled before the cancellation took effect. A fill that leaves
    /// the execution with exactly one filled leg is appended to the exposure
    /// log.
    pub fn on_cancel_outcome(
        &mut self,
        log: &mut ExposureLog,
        leg: Leg,
        fill: Option<(u64, u64)>,
        now: u64,
    ) -> (action: ExecAction)
        requires
            old(self).done is None,
            old(self).leg_spec(leg).status is CancelRequested,
        ensures
            final(self).opportunity == old(self).opportunity,
            final(self).deadline == old(self).deadline,
            final(self).leg_spec(leg.other_spec()) == old(self).leg_spec(leg.other_spec()),
            final(self).done == settle_spec(final(self).buy.status, final(self).sell.status),
            fill matches Some((p, q)) ==> final(self).leg_spec(leg) == (LegState {
                status: LegStatus::Filled,
                fill_price: p,
                fill_quantity: q,
                ..old(self).leg_spec(leg)
            }),
            fill is None ==> final(self).leg_spec(leg) == (LegState {
                status: LegStatus::Cancelled,
                ..old(self).leg_spec(leg)
            }),
            final(self).done == Some(ExecOutcome::OpenExposure) ==> {
                &&& action == (ExecAction::ExposureRecorded {
                    exposure: exposure_of(*final(self), filled_leg_spec(*final(self)), now),
                })
                &&& final(log).records@ == old(log).records@.push(
                    exposure_of(*final(self), filled_leg_spec(*final(self)), now))
            },
            !(final(self).done == Some(ExecOutcome::OpenExposure)) ==> {
                &&& final(log).records@ == old(log).records@
                &&& action == (if final(self).done is Some {
                    ExecAction::Finished
                } else {
                    ExecAction::Wait
                })
            },
    {
        let cur = match leg {
            Leg::Buy => self.buy,
            Leg::Sell => self.sell,
        };
        match fill {
            Option::Some((p, q)) => {
                self.set_leg(leg, LegState {
                    status: LegStatus::Filled,
                    fill_price: p,
                    fill_quantity: q,
                    ..cur
                });
            },
            Option::None => {
                self.set_leg(leg, LegState { status: LegStatus::Cancelled, ..cur });
            },
        }
        self.settle();
        let exposure_now = match self.done {
            Option::Some(ExecOutcome::OpenExposure) => true,
            _ => false,
        };
        if exposure_now {
            let buy_filled = match self.buy.status {
                LegStatus::Filled => true,
                _ => false,
            };
            let filled_leg = if buy_filled { Leg::Buy } else { Leg::Sell };
            let st = match filled_leg {
                Leg::Buy => self.buy,
                Leg::Sell => self.sell,
            };
            let venue = match filled_leg {
                Leg::Buy => self.opportunity.buy_venue,
                Leg::Sell => self.opportunity.sell_venue,
            };
            let exposure = OpenExposure {
                leg: filled_leg,
                venue,
                price: st.fill_price,
                quantity: st.fill_quantity,
                recorded_at: now,
                resolved: false,
            };
            log.record(exposure);
            ExecAction::ExposureRecorded { exposure }
        } else {
            match self.done {
                Option::Some(_) => ExecAction::Finished,
                Option::None => ExecAction::Wait,
            }
        }
    }

    /// The execution deadline elapsed: every leg still pending gets its
    /// cancellation requested. The caller must perform a cancel for each
    /// flagged leg.
    pub fn on_deadline(&mut self, now: u64) -> (r: (bool, bool))
        requires
            old(self).done is None,
            now >= old(self).deadline,
        ensures
            final(self).opportunity == old(self).opportunity,
            final(self).deadline == old(self).deadline,
            final(self).done == settle_spec(final(self).buy.status, final(self).sell.status),
            r.0 == old(self).buy.status is Pending,
            r.1 == old(self).sell.status is Pending,
            r.0 ==> final(self).buy == (LegState {
                status: LegStatus::CancelRequested,
                ..old(self).buy
            }),
            !r.0 ==> final(self).buy == old(self).buy,
            r.1 ==> final(self).sell == (LegState {
                status: LegStatus::CancelRequested,
                ..old(self).sell
            }),
            !r.1 ==> final(self).sell == old(self).sell,
    {
        let cancel_buy = match self.buy.status {
            LegStatus::Pending => true,
            _ => false,
        };
        let cancel_sell = match self.sell.status {
            LegStatus::Pending => true,
            _ => false,
        };
        if cancel_buy {
            let b = self.buy;
            self.buy = LegState { status: LegStatus::CancelRequested, ..b };
        }
        if cancel_sell {
            let s = self.sell;
            self.sell = LegState { status: LegStatus::CancelRequested, ..s };
        }
        self.settle();
        (cancel_buy, cancel_sell)
    }

    /// The error a finished execution surfaces, if any: a partial fill is a
    /// `PartialFillMismatch`, a clean abort a `VenueUnavailable`, a success
    /// nothing.
    pub fn outcome_error(&self) -> (r: Option<CoreError>)
        requires
            self.done is Some,
        ensures
            self.done == Some(ExecOutcome::Success) ==> r is None,
            self.done == Some(ExecOutcome::OpenExposure)
                ==> r == Some(CoreError::PartialFillMismatch),
            self.done == Some(ExecOutcome::Aborted) ==> r == Some(CoreError::VenueUnavailable),
    {
        match self.done {
            Option::Some(ExecOutcome::Success) => None,
            Option::Some(ExecOutcome::OpenExposure) => Some(CoreError::PartialFillMismatch),
            Option::Some(ExecOutcome::Aborted) => Some(CoreError::VenueUnavailable),
            Option::None => None,
        }
    }

    /// The structured event of a finished execution: venue identifiers, the
    /// legs' fill values, and the estimated profit to compare the realized
    /// outcome against. Every execution attempt ends in exactly one such
    /// event.
    pub fn completion_event(&self) -> (r: EngineEvent)
        requires
            self.done is Some,
        ensures
            r == (EngineEvent::TradeExecuted {
                buy_venue: self.opportunity.buy_venue,
                sell_venue: self.opportunity.sell_venue,
                buy_value: (self.buy.fill_price * self.buy.fill_quantity) as u128,
                sell_value: (self.sell.fill_price * self.sell.fill_quantity) as u128,
                estimated_net_profit: self.opportunity.estimated_net_profit,
                success: self.done == Some(ExecOutcome::Success),
            }),
    {
        proof {
            lemma_u64_mul_fits(self.buy.fill_price, self.buy.fill_quantity);
            lemma_u64_mul_fits(self.sell.fill_price, self.sell.fill_quantity);
        }
        let success = match self.done {
            Option::Some(ExecOutcome::Success) => true,
            _ => false,
        };
        EngineEvent::TradeExecuted {
            buy_venue: self.opportunity.buy_venue,
            sell_venue: self.opportunity.sell_venue,
            buy_value: (self.buy.fill_price as u128) * (self.buy.fill_quantity as u128),
            sell_value: (self.sell.fill_price as u128) * (self.sell.fill_quantity as u128),
            estimated_net_profit: self.opportunity.estimated_net_profit,
            success,
        }
    }
}

/// The filled leg of an execution that settled as an open exposure.
pub open spec fn filled_leg_spec(s: ExecutionState) -> Leg {
    if s.buy.status is Filled {
        Leg::Buy
    } else {
        Leg::Sell
    }
}

/// The exposure record for the given filled leg of an execution.
pub open spec fn exposure_of(s: ExecutionState, leg: Leg, now: u64) -> OpenExposure {
    OpenExposure {
        leg,
        venue: if leg is Buy {
            s.opportunity.buy_venue
        } else {
            s.opportunity.sell_venue
        },
        price: s.leg_spec(leg).fill_price,
        quantity: s.leg_spec(leg).fill_quantity,
        recorded_at: now,
        resolved: false,
    }
}

/// Saturating multiplication stays on the mathematical product when it fits
/// and on the ceiling otherwise.
proof fn lemma_saturating_mul(a: u64, b: u64)
    requires
        b >= 1,
    ensures
        a <= u64::MAX as int / (b as int) ==> a * b <= u64::MAX,
        a > u64::MAX as int / (b as int) ==> a * b > u64::MAX,
{
    vstd::arithmetic::div_mod::lemma_fundamental_div_mod(u64::MAX as int, b as int);
    let q = u64::MAX as int / (b as int);
    let m = u64::MAX as int % (b as int);
    if a <= q {
        assert(a * b <= q * b) by (nonlinear_arith)
            requires a <= q, b >= 1;
        assert(q * b <= q * b + m);
        assert(b * q == q * b) by (nonlinear_arith);
    } else {
        assert(a * b >= (q + 1) * b) by (nonlinear_arith)
            requires a >= q + 1, b >= 1;
        assert((q + 1) * b == q * b + b) by (nonlinear_arith);
        assert(m < b);
        assert(b * q == q * b) by (nonlinear_arith);
    }
}

} // verus!
