//! Arbitrage detection: from current order-book snapshots across venues,
//! decide whether a profitable cross-venue trade exists.
//!
//! The best bid is the maximum top-of-book bid among eligible venues; the
//! best ask is the minimum top-of-book ask among the others. Net profit is
//! the spread minus both venues' fees and a slippage estimate, and an
//! opportunity is emitted only when it is strictly above the configured
//! threshold. Ties at the best price break deterministically: lower
//! historical execution latency first, then lower configured fee, then the
//! lower venue index.

use vstd::prelude::*;
use crate::math::{ppm_mul, ppm_of, RATIO_SCALE};

verus! {

/// One order-book level: a price and the quantity resting at it.
#[derive(Clone, Copy, Debug, PartialEq, Eq, Structural)]
pub struct PriceLevel {
    pub price: u64,
    pub quantity: u64,
}

/// One venue's order book for the symbol at one instant. Bids are ordered by
/// descending price, asks by ascending price, and a venue's own book never
/// crosses itself.
#[derive(Clone, Debug)]
pub struct OrderBookSnapshot {
    pub venue: usize,
    pub bids: Vec<PriceLevel>,
    pub asks: Vec<PriceLevel>,
    pub timestamp: u64,
}

impl OrderBookSnapshot {
    pub open spec fn well_formed(self) -> bool {
        &&& forall|i: int, j: int| 0 <= i <= j < self.bids@.len()
                ==> (#[trigger] self.bids@[i]).price >= (#[trigger] self.bids@[j]).price
        &&& forall|i: int, j: int| 0 <= i <= j < self.asks@.len()
                ==> (#[trigger] self.asks@[i]).price <= (#[trigger] self.asks@[j]).price
        &&& self.bids@.len() > 0 && self.asks@.len() > 0
                ==> self.bids@[0].price < self.asks@[0].price
    }

    /// Decides `well_formed` at run time, so an unverified caller can check a
    /// snapshot it received from a venue before handing it to the detector.
    pub fn well_formed_check(&self) -> (r: bool)
        ensures
            r == self.well_formed(),
    {
        let mut i: usize = 1;
        let nb = self.bids.len();
        while i < nb
            invariant
                1 <= i,
                i <= nb || nb == 0,
                nb == self.bids@.len(),
                forall|p: int, q: int| 0 <= p <= q < i && q < nb
                    ==> (#[trigger] self.bids@[p]).price >= (#[trigger] self.bids@[q]).price,
            decreases nb - i,
        {
            if self.bids[i - 1].price < self.bids[i].price {
                return false;
            }
            i = i + 1;
        }
        let mut j: usize = 1;
        let na = self.asks.len();
        while j < na
            invariant
                1 <= j,
                j <= na || na == 0,
                na == self.asks@.len(),
                forall|p: int, q: int| 0 <= p <= q < j && q < na
                    ==> (#[trigger] self.asks@[p]).price <= (#[trigger] self.asks@[q]).price,
            decreases na - j,
        {
            if self.asks[j - 1].price > self.asks[j].price {
                return false;
            }
            j = j + 1;
        }
        if nb > 0 && na > 0 && self.bids[0].price >= self.asks[0].price {
            return false;
        }
        true
    }
}

/// A profitable cross-venue trade the detector proposes: buy at `buy_price`
/// on `buy_venue`, sell at `sell_price` on `sell_venue`.
#[derive(Clone, Debug)]
pub struct ArbitrageOpportunity {
    pub symbol: String,
    pub buy_venue: usize,
    pub sell_venue: usize,
    pub buy_price: u64,
    pub sell_price: u64,
    pub tradable_size: u64,
    pub estimated_net_profit: i128,
    pub detected_at: u64,
}

impl ArbitrageOpportunity {
    /// The two legs never share a venue.
    pub open spec fn well_formed(self) -> bool {
        self.buy_venue != self.sell_venue
    }

    /// The structured event announcing this opportunity to the metrics
    /// collaborator.
    pub fn to_event(&self) -> (r: crate::events::EngineEvent)
        ensures
            r == (crate::events::EngineEvent::OpportunityDetected {
                sell_venue: self.sell_venue,
                buy_venue: self.buy_venue,
                tradable_size: self.tradable_size,
                estimated_net_profit: self.estimated_net_profit,
                detected_at: self.detected_at,
            }),
    {
        crate::events::EngineEvent::OpportunityDetected {
            sell_venue: self.sell_venue,
            buy_venue: self.buy_venue,
            tradable_size: self.tradable_size,
            estimated_net_profit: self.estimated_net_profit,
            detected_at: self.detected_at,
        }
    }
}

/// A snapshot stamped `ts` is still usable at `now` under the staleness
/// bound.
pub open spec fn book_fresh(ts: u64, now: u64, bound_ms: u64) -> bool {
    now <= ts + bound_ms
}

/// Venue `i` can serve as the sell (best-bid) side: its snapshot is fresh and
/// its book has at least one bid.
pub open spec fn bid_eligible(books: Seq<OrderBookSnapshot>, i: int, now: u64, bound_ms: u64) -> bool {
    &&& 0 <= i < books.len()
    &&& book_fresh(books[i].timestamp, now, bound_ms)
    &&& books[i].bids@.len() > 0
}

/// Venue `i` can serve as the buy (best-ask) side against a sell on venue
/// `excl`: fresh, a non-empty ask book, and not the sell venue itself.
pub open spec fn ask_eligible(
    books: Seq<OrderBookSnapshot>,
    i: int,
    now: u64,
    bound_ms: u64,
    excl: int,
) -> bool {
    &&& 0 <= i < books.len()
    &&& i != excl
    &&& book_fresh(books[i].timestamp, now, bound_ms)
    &&& books[i].asks@.len() > 0
}

/// The deterministic preference between two bid-side venues: the higher top
/// bid wins; ties go to the lower latency, then the lower fee, then the lower
/// venue index.
pub open spec fn prefer_bid(
    books: Seq<OrderBookSnapshot>,
    latencies: Seq<u64>,
    fees: Seq<u64>,
    a: int,
    b: int,
) -> bool {
    let pa = books[a].bids@[0].price;
    let pb = books[b].bids@[0].price;
    ||| pa > pb
    ||| (pa == pb && (latencies[a] < latencies[b]
        || (latencies[a] == latencies[b] && (fees[a] < fees[b]
        || (fees[a] == fees[b] && a <= b)))))
}

/// The deterministic preference between two ask-side venues: the lower top
/// ask wins; ties break as for bids.
pub open spec fn prefer_ask(
    books: Seq<OrderBookSnapshot>,
    latencies: Seq<u64>,
    fees: Seq<u64>,
    a: int,
    b: int,
) -> bool {
    let pa = books[a].asks@[0].price;
    let pb = books[b].asks@[0].price;
    ||| pa < pb
    ||| (pa == pb && (latencies[a] < latencies[b]
        || (latencies[a] == latencies[b] && (fees[a] < fees[b]
        || (fees[a] == fees[b] && a <= b)))))
}

/// Venue `v` is the venue the detector must sell on: bid-eligible and
/// preferred over every bid-eligible venue.
pub open spec fn is_best_bid(
    books: Seq<OrderBookSnapshot>,
    latencies: Seq<u64>,
    fees: Seq<u64>,
    now: u64,
    bound_ms: u64,
    v: int,
) -> bool {
    &&& bid_eligible(books, v, now, bound_ms)
    &&& forall|j: int| #[trigger] bid_eligible(books, j, now, bound_ms)
            ==> prefer_bid(books, latencies, fees, v, j)
}

/// Venue `v` is the venue the detector must buy on, given the sell happens on
/// `excl`: ask-eligible away from `excl` and preferred over every such venue.
pub open spec fn is_best_ask(
    books: Seq<OrderBookSnapshot>,
    latencies: Seq<u64>,
    fees: Seq<u64>,
    now: u64,
    bound_ms: u64,
    excl: int,
    v: int,
) -> bool {
    &&& ask_eligible(books, v, now, bound_ms, excl)
    &&& forall|j: int| #[trigger] ask_eligible(books, j, now, bound_ms, excl)
            ==> prefer_ask(books, latencies, fees, v, j)
}

/// The best bid venue is unique: the preference order is total and breaks
/// every tie down to the venue index, so detection is deterministic.
pub proof fn lemma_best_bid_unique(
    books: Seq<OrderBookSnapshot>,
    latencies: Seq<u64>,
    fees: Seq<u64>,
    now: u64,
    bound_ms: u64,
    a: int,
    b: int,
)
    requires
        is_best_bid(books, latencies, fees, now, bound_ms, a),
        is_best_bid(books, latencies, fees, now, bound_ms, b),
    ensures
        a == b,
{
    assert(prefer_bid(books, latencies, fees, a, b));
    assert(prefer_bid(books, latencies, fees, b, a));
}

/// The best ask venue against a fixed sell venue is unique, for the same
/// reason.
pub proof fn lemma_best_ask_unique(
    books: Seq<OrderBookSnapshot>,
    latencies: Seq<u64>,
    fees: Seq<u64>,
    now: u64,
    bound_ms: u64,
    excl: int,
    a: int,
    b: int,
)
    requires
        is_best_ask(books, latencies, fees, now, bound_ms, excl, a),
        is_best_ask(books, latencies, fees, now, bound_ms, excl, b),
    ensures
        a == b,
{
    assert(prefer_ask(books, latencies, fees, a, b));
    assert(prefer_ask(books, latencies, fees, b, a));
}

/// The estimated net profit of selling at `bid_price` and buying at
/// `ask_price`: the spread minus each venue's fee on its own price and minus
/// the caller's slippage estimate for the trade size.
pub open spec fn net_profit_spec(
    bid_price: u64,
    ask_price: u64,
    bid_fee_ppm: u64,
    ask_fee_ppm: u64,
    slippage: u64,
) -> int {
    bid_price - ask_price - ppm_mul(bid_price, bid_fee_ppm) - ppm_mul(ask_price, ask_fee_ppm)
        - slippage
}

/// Finds the venue to sell on: the eligible venue with the maximum top-of-
/// book bid, ties broken by latency, then fee, then index. `None` exactly
/// when no venue is bid-eligible.
pub fn best_bid_venue(
    books: &Vec<OrderBookSnapshot>,
    latencies: &Vec<u64>,
    fees: &Vec<u64>,
    now: u64,
    bound_ms: u64,
) -> (r: Option<usize>)
    requires
        books@.len() == latencies@.len(),
        books@.len() == fees@.len(),
    ensures
        r is None <==> (forall|j: int| !bid_eligible(books@, j, now, bound_ms)),
        r matches Some(v) ==> is_best_bid(books@, latencies@, fees@, now, bound_ms, v as int),
{
    let n = books.len();
    let mut best: Option<usize> = None;
    let mut i: usize = 0;
    while i < n
        invariant
            n == books@.len(),
            books@.len() == latencies@.len(),
            books@.len() == fees@.len(),
            i <= n,
            best is None ==> forall|j: int| 0 <= j < i ==> !bid_eligible(books@, j, now, bound_ms),
            best matches Some(v) ==> {
                &&& v < i
                &&& bid_eligible(books@, v as int, now, bound_ms)
                &&& forall|j: int| 0 <= j < i && #[trigger] bid_eligible(books@, j, now, bound_ms)
                        ==> prefer_bid(books@, latencies@, fees@, v as int, j)
            },
        decreases n - i,
    {
        let fresh = now <= books[i].timestamp || now - books[i].timestamp <= bound_ms;
        if fresh && books[i].bids.len() > 0 {
            let take = match best {
                Option::None => true,
                Option::Some(v) => {
                    let pi = books[i].bids[0].price;
                    let pv = books[v].bids[0].price;
                    pi > pv
                        || (pi == pv && (latencies[i] < latencies[v]
                            || (latencies[i] == latencies[v] && fees[i] < fees[v])))
                },
            };
            if take {
                best = Some(i);
            }
        }
        i = i + 1;
    }
    best
}

/// Finds the venue to buy on, never the sell venue itself: the eligible venue
/// with the minimum top-of-book ask, ties broken by latency, then fee, then
/// index. `None` exactly when no venue other than `excl` is ask-eligible.
pub fn best_ask_venue(
    books: &Vec<OrderBookSnapshot>,
    latencies: &Vec<u64>,
    fees: &Vec<u64>,
    now: u64,
    bound_ms: u64,
    excl: usize,
) -> (r: Option<usize>)
    requires
        books@.len() == latencies@.len(),
        books@.len() == fees@.len(),
    ensures
        r is None <==> (forall|j: int| !ask_eligible(books@, j, now, bound_ms, excl as int)),
        r matches Some(v) ==> is_best_ask(
            books@, latencies@, fees@, now, bound_ms, excl as int, v as int,
        ),
{
    let n = books.len();
    let mut best: Option<usize> = None;
    let mut i: usize = 0;
    while i < n
        invariant
            n == books@.len(),
            books@.len() == latencies@.len(),
            books@.len() == fees@.len(),
            i <= n,
            best is None ==> forall|j: int| 0 <= j < i
                ==> !ask_eligible(books@, j, now, bound_ms, excl as int),
            best matches Some(v) ==> {
                &&& v < i
                &&& ask_eligible(books@, v as int, now, bound_ms, excl as int)
                &&& forall|j: int| 0 <= j < i
                        && #[trigger] ask_eligible(books@, j, now, bound_ms, excl as int)
                        ==> prefer_ask(books@, latencies@, fees@, v as int, j)
            },
        decreases n - i,
    {
        let fresh = now <= books[i].timestamp || now - books[i].timestamp <= bound_ms;
        if i != excl && fresh && books[i].asks.len() > 0 {
            let take = match best {
                Option::None => true,
                Option::Some(v) => {
                    let pi = books[i].asks[0].price;
                    let pv = books[v].asks[0].price;
                    pi < pv
                        || (pi == pv && (latencies[i] < latencies[v]
                            || (latencies[i] == latencies[v] && fees[i] < fees[v])))
                },
            };
            if take {
                best = Some(i);
            }
        }
        i = i + 1;
    }
    best
}

/// The estimated net profit as a machine value; exact, since the computation
/// is carried out in 128 bits.
pub fn net_profit(
    bid_price: u64,
    ask_price: u64,
    bid_fee_ppm: u64,
    ask_fee_ppm: u64,
    slippage: u64,
) -> (r: i128)
    requires
        bid_fee_ppm <= RATIO_SCALE,
        ask_fee_ppm <= RATIO_SCALE,
    ensures
        r == net_profit_spec(bid_price, ask_price, bid_fee_ppm, ask_fee_ppm, slippage),
{
    let bid_fee = ppm_of(bid_price, bid_fee_ppm);
    let ask_fee = ppm_of(ask_price, ask_fee_ppm);
    (bid_price as i128) - (ask_price as i128) - (bid_fee as i128) - (ask_fee as i128)
        - (slippage as i128)
}

/// Runs one detection pass over the venues' snapshots.
///
/// `latencies` and `fees` are per-venue configuration, indexed like `books`;
/// `slippage` is the caller's slippage estimate for this trade. An
/// opportunity is returned exactly when a best bid and a best ask on distinct
/// venues exist and the estimated net profit is strictly greater than
/// `min_profit_threshold`; at exact equality nothing is emitted.
pub fn detect(
    symbol: &str,
    books: &Vec<OrderBookSnapshot>,
    latencies: &Vec<u64>,
    fees: &Vec<u64>,
    now: u64,
    bound_ms: u64,
    slippage: u64,
    min_profit_threshold: u64,
    max_trade_size: u64,
) -> (r: Option<ArbitrageOpportunity>)
    requires
        books@.len() == latencies@.len(),
        books@.len() == fees@.len(),
        forall|i: int| 0 <= i < fees@.len() ==> fees@[i] <= RATIO_SCALE,
    ensures
        r matches Some(o) ==> {
            let bv = o.sell_venue as int;
            let av = o.buy_venue as int;
            &&& o.well_formed()
            &&& is_best_bid(books@, latencies@, fees@, now, bound_ms, bv)
            &&& is_best_ask(books@, latencies@, fees@, now, bound_ms, bv, av)
            &&& o.sell_price == books@[bv].bids@[0].price
            &&& o.buy_price == books@[av].asks@[0].price
            &&& o.estimated_net_profit == net_profit_spec(
                o.sell_price, o.buy_price, fees@[bv], fees@[av], slippage)
            &&& o.estimated_net_profit > min_profit_threshold
            &&& o.tradable_size == vstd::math::min(
                vstd::math::min(
                    books@[bv].bids@[0].quantity as int,
                    books@[av].asks@[0].quantity as int,
                ),
                max_trade_size as int,
            )
            &&& o.detected_at == now
            &&& o.symbol@ == symbol@
        },
        r is None ==> {
            ||| (forall|j: int| !bid_eligible(books@, j, now, bound_ms))
            ||| (exists|bv: int|
                is_best_bid(books@, latencies@, fees@, now, bound_ms, bv)
                && (forall|j: int| !ask_eligible(books@, j, now, bound_ms, bv)))
            ||| (exists|bv: int, av: int|
                is_best_bid(books@, latencies@, fees@, now, bound_ms, bv)
                && is_best_ask(books@, latencies@, fees@, now, bound_ms, bv, av)
                && net_profit_spec(
                    books@[bv].bids@[0].price,
                    books@[av].asks@[0].price,
                    fees@[bv],
                    fees@[av],
                    slippage,
                ) <= min_profit_threshold)
        },
{
    let b = best_bid_venue(books, latencies, fees, now, bound_ms);
    let bv = match b {
        Option::Some(v) => v,
        Option::None => {
            return None;
        },
    };
    let a = best_ask_venue(books, latencies, fees, now, bound_ms, bv);
    let av = match a {
        Option::Some(v) => v,
        Option::None => {
            return None;
        },
    };
    let sell_price = books[bv].bids[0].price;
    let buy_price = books[av].asks[0].price;
    let profit = net_profit(sell_price, buy_price, fees[bv], fees[av], slippage);
    if profit > min_profit_threshold as i128 {
        let bid_qty = books[bv].bids[0].quantity;
        let ask_qty = books[av].asks[0].quantity;
        let size0 = if bid_qty <= ask_qty { bid_qty } else { ask_qty };
        let size = if size0 <= max_trade_size { size0 } else { max_trade_size };
        Some(ArbitrageOpportunity {
            symbol: symbol.to_owned(),
            buy_venue: av,
            sell_venue: bv,
            buy_price,
            sell_price,
            tradable_size: size,
            estimated_net_profit: profit,
            detected_at: now,
        })
    } else {
        None
    }
}

} // verus!
