//! Structured events the engine emits for the metrics collaborator. The core
//! only produces these values; forwarding them to a metrics store or log is
//! the caller's business.

use vstd::prelude::*;
use crate::errors::VenueErrorKind;

verus! {

/// One event, named after what happened, carrying the identifiers and
/// quantities a metrics consumer needs.
#[derive(Clone, Copy, Debug, PartialEq, Eq, Structural)]
pub enum EngineEvent {
    /// The detector found a profitable cross-venue trade.
    OpportunityDetected {
        sell_venue: usize,
        buy_venue: usize,
        tradable_size: u64,
        estimated_net_profit: i128,
        detected_at: u64,
    },
    /// A two-leg execution finished, in success or failure. The legs' fill
    /// values are reported separately so the realized profit can be compared
    /// with the estimate.
    TradeExecuted {
        buy_venue: usize,
        sell_venue: usize,
        buy_value: u128,
        sell_value: u128,
        estimated_net_profit: i128,
        success: bool,
    },
    /// An LP position moved to a new price range.
    PositionRebalanced { position_id: u64, old_min: u64, old_max: u64, new_min: u64, new_max: u64 },
    /// An LP position's redeposit failed; its funds await reconciliation.
    PositionOrphaned { position_id: u64 },
    /// A venue's circuit breaker opened; the venue leaves aggregation.
    VenueCircuitOpened { venue: usize },
    /// A venue's circuit breaker closed again.
    VenueCircuitClosed { venue: usize },
    /// A venue call failed.
    ErrorEvent { venue: usize, kind: VenueErrorKind },
}

} // verus!
