//! The engine's error taxonomy: venue-level failure kinds, which decide the
//! retry policy, and the errors a core operation can surface to its caller.

use vstd::prelude::*;

verus! {

/// How a single venue-adapter call failed, as classified by the adapter.
#[derive(Clone, Copy, Debug, PartialEq, Eq, Structural)]
pub enum VenueErrorKind {
    /// The call did not complete in time.
    Timeout,
    /// The venue asked the caller to slow down.
    RateLimit,
    /// The transport failed.
    Network,
    /// The venue rejected the caller's credentials.
    Authentication,
    /// The account lacks the funds the action needs.
    InsufficientBalance,
}

impl VenueErrorKind {
    /// Transient failures may be retried with bounded backoff; the others are
    /// fatal to the action that hit them.
    pub open spec fn is_transient_spec(self) -> bool {
        self is Timeout || self is RateLimit || self is Network
    }

    pub fn is_transient(&self) -> (r: bool)
        ensures
            r == self.is_transient_spec(),
    {
        match self {
            VenueErrorKind::Timeout => true,
            VenueErrorKind::RateLimit => true,
            VenueErrorKind::Network => true,
            VenueErrorKind::Authentication => false,
            VenueErrorKind::InsufficientBalance => false,
        }
    }

    /// The error a venue failure of this kind surfaces as: every transient
    /// kind is a `VenueUnavailable`, the fatal kinds keep their identity.
    pub fn as_core_error(&self) -> (r: CoreError)
        ensures
            self.is_transient_spec() ==> r == CoreError::VenueUnavailable,
            self is Authentication ==> r == CoreError::AuthenticationError,
            self is InsufficientBalance ==> r == CoreError::InsufficientBalance,
    {
        match self {
            VenueErrorKind::Timeout => CoreError::VenueUnavailable,
            VenueErrorKind::RateLimit => CoreError::VenueUnavailable,
            VenueErrorKind::Network => CoreError::VenueUnavailable,
            VenueErrorKind::Authentication => CoreError::AuthenticationError,
            VenueErrorKind::InsufficientBalance => CoreError::InsufficientBalance,
        }
    }
}

/// An error surfaced by a core operation to its caller.
#[derive(Clone, Copy, Debug, PartialEq, Eq, Structural)]
pub enum CoreError {
    /// A venue call failed transiently; the failure stays inside the component.
    VenueUnavailable,
    /// A quote or book is older than the staleness window.
    StalePrice,
    /// Every venue is failed or stale for the query.
    NoPriceAvailable,
    /// The venue rejected the credentials; fatal to the specific action.
    AuthenticationError,
    /// The balance does not cover the action; fatal to the specific action.
    InsufficientBalance,
    /// One leg of a two-leg trade filled and the other did not.
    PartialFillMismatch,
    /// The configuration is not usable; fatal at startup only.
    ConfigurationError,
}

} // verus!
