use dexbot::detector::{
    best_ask_venue, best_bid_venue, detect, net_profit, ArbitrageOpportunity, PriceLevel,
    OrderBookSnapshot,
};

fn book(venue: usize, bid: u64, bid_qty: u64, ask: u64, ask_qty: u64, ts: u64) -> OrderBookSnapshot {
    OrderBookSnapshot {
        venue,
        bids: vec![PriceLevel { price: bid, quantity: bid_qty }],
        asks: vec![PriceLevel { price: ask, quantity: ask_qty }],
        timestamp: ts,
    }
}

// Prices in this file carry four decimal places (1_000_000 is 100.00 units),
// fees are in parts per million.

#[test]
fn cross_venue_spread_eaten_by_fees_is_not_emitted() {
    // venue 0: bid 50010 / ask 50020, fee 0.1%; venue 1: bid 50050 / ask 50030, fee 0.1%
    let books = vec![
        book(0, 500_100_000, 5, 500_200_000, 5, 1_000),
        book(1, 500_500_000, 5, 500_300_000, 5, 1_000),
    ];
    let latencies = vec![10, 10];
    let fees = vec![1_000, 1_000];
    // best bid is venue 1 at 50050; best ask excluding venue 1 is venue 0 at 50020
    assert_eq!(best_bid_venue(&books, &latencies, &fees, 1_000, 1_000), Some(1));
    assert_eq!(best_ask_venue(&books, &latencies, &fees, 1_000, 1_000, 1), Some(0));
    // fees: 50020 * 0.1% + 50050 * 0.1% = 100.07; spread is 30 -> net -70.07
    let profit = net_profit(500_500_000, 500_200_000, 1_000, 1_000, 0);
    assert_eq!(profit, 300_000 - 500_200 - 500_500);
    let r = detect(
        "BTCUSDT", &books, &latencies, &fees, 1_000, 1_000, 0, 0, 1_000_000,
    );
    assert!(r.is_none());
}

#[test]
fn profit_at_exact_threshold_is_not_emitted() {
    // best bid 100.00, best ask 99.90, fee on the bid venue exactly 0.09,
    // threshold 0.01: the net profit equals the threshold, so nothing fires
    let books = vec![
        book(0, 900_000, 7, 999_000, 4, 50),
        book(1, 1_000_000, 7, 1_500_000, 4, 50),
    ];
    let latencies = vec![5, 5];
    let fees = vec![0, 900];
    let profit = net_profit(1_000_000, 999_000, 900, 0, 0);
    assert_eq!(profit, 100);
    let r = detect("BTCUSDT", &books, &latencies, &fees, 50, 100, 0, 100, 1_000_000);
    assert!(r.is_none());
    // one threshold step lower, the same spread is emitted
    let r2 = detect("BTCUSDT", &books, &latencies, &fees, 50, 100, 0, 99, 1_000_000);
    let o: ArbitrageOpportunity = r2.unwrap();
    assert_eq!(o.sell_venue, 1);
    assert_eq!(o.buy_venue, 0);
    assert_eq!(o.sell_price, 1_000_000);
    assert_eq!(o.buy_price, 999_000);
    assert_eq!(o.estimated_net_profit, 100);
    assert_eq!(o.tradable_size, 4);
    assert_eq!(o.detected_at, 50);
    assert_eq!(o.symbol, "BTCUSDT");
}

#[test]
fn tradable_size_is_capped_by_both_books_and_config() {
    let books = vec![
        book(0, 10, 100, 20, 30, 0),
        book(1, 100, 8, 200, 100, 0),
    ];
    let latencies = vec![1, 1];
    let fees = vec![0, 0];
    let o = detect("X", &books, &latencies, &fees, 0, 10, 0, 0, 1_000).unwrap();
    // bid quantity 8 on venue 1, ask quantity 30 on venue 0, cap 1_000
    assert_eq!(o.tradable_size, 8);
    let o2 = detect("X", &books, &latencies, &fees, 0, 10, 0, 0, 5).unwrap();
    assert_eq!(o2.tradable_size, 5);
}

#[test]
fn ties_break_by_latency_then_fee_then_index() {
    let books = vec![
        book(0, 100, 1, 300, 1, 0),
        book(1, 100, 1, 300, 1, 0),
        book(2, 100, 1, 300, 1, 0),
    ];
    // equal prices everywhere: venue 1 has the lowest latency
    let latencies = vec![9, 3, 9];
    let fees = vec![1, 1, 1];
    assert_eq!(best_bid_venue(&books, &latencies, &fees, 0, 10), Some(1));
    // equal latency: the lower fee wins
    let latencies2 = vec![9, 9, 9];
    let fees2 = vec![7, 7, 2];
    assert_eq!(best_bid_venue(&books, &latencies2, &fees2, 0, 10), Some(2));
    // full tie: the lowest venue index wins, deterministically
    let fees3 = vec![7, 7, 7];
    assert_eq!(best_bid_venue(&books, &latencies2, &fees3, 0, 10), Some(0));
    assert_eq!(best_ask_venue(&books, &latencies2, &fees3, 0, 10, 0), Some(1));
}

#[test]
fn stale_books_are_excluded_from_detection() {
    let books = vec![
        book(0, 500, 1, 600, 1, 100),
        book(1, 900, 1, 910, 1, 5_000),
    ];
    let latencies = vec![1, 1];
    let fees = vec![0, 0];
    // at 6_000 with a bound of 1_500, only venue 1 is fresh; with a single
    // venue there is no cross-venue pair and nothing is emitted
    assert_eq!(best_bid_venue(&books, &latencies, &fees, 6_000, 1_500), Some(1));
    assert_eq!(best_ask_venue(&books, &latencies, &fees, 6_000, 1_500, 1), None);
    assert!(detect("X", &books, &latencies, &fees, 6_000, 1_500, 0, 0, 10).is_none());
}

#[test]
fn well_formed_check_accepts_sorted_and_rejects_crossed_books() {
    let good = OrderBookSnapshot {
        venue: 0,
        bids: vec![
            PriceLevel { price: 105, quantity: 1 },
            PriceLevel { price: 100, quantity: 2 },
        ],
        asks: vec![
            PriceLevel { price: 106, quantity: 1 },
            PriceLevel { price: 110, quantity: 2 },
        ],
        timestamp: 0,
    };
    assert!(good.well_formed_check());
    let crossed = OrderBookSnapshot {
        venue: 0,
        bids: vec![PriceLevel { price: 106, quantity: 1 }],
        asks: vec![PriceLevel { price: 106, quantity: 1 }],
        timestamp: 0,
    };
    assert!(!crossed.well_formed_check());
    let unsorted = OrderBookSnapshot {
        venue: 0,
        bids: vec![
            PriceLevel { price: 100, quantity: 1 },
            PriceLevel { price: 105, quantity: 1 },
        ],
        asks: vec![PriceLevel { price: 110, quantity: 1 }],
        timestamp: 0,
    };
    assert!(!unsorted.well_formed_check());
}
