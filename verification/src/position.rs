//! The record that represents one locked, owned, optionally delegated and
//! optionally listed custody unit.

use vstd::prelude::*;

verus! {

/// One locked custody unit. `identity` addresses the record and seeds the
/// derived authority; `owner` is the party entitled to the custody right;
/// the lock terms (`start_time`, `lock_duration`, `unlock_time`) are fixed
/// at creation; `for_sale` / `listed_price` are the marketplace state; and
/// `deactivated_at`, once set, is permanent and opens the early-unlock path.
#[derive(Clone, Copy, Debug)]
pub struct Position {
    /// Unique identifier of the record; immutable after creation.
    pub identity: u64,
    /// The party currently entitled to the custody right; changes only by a
    /// successful marketplace purchase.
    pub owner: u64,
    /// The external process the value was committed to; immutable.
    pub delegation_target: u64,
    /// The account holding the custodied value; immutable.
    pub custody_account: u64,
    /// Quantity of value captured from the custody account at creation;
    /// informational, an upper bound for withdrawal, never re-synced.
    pub amount: u64,
    /// Clock reading at creation.
    pub start_time: u64,
    /// Caller-chosen lock duration.
    pub lock_duration: u64,
    /// `start_time + lock_duration`, computed once at creation.
    pub unlock_time: u64,
    /// Whether the marketplace may ever be used for this record; immutable.
    pub transferable: bool,
    /// True exactly while a sale offer is active.
    pub for_sale: bool,
    /// The active offer's price; zero whenever `for_sale` is false.
    pub listed_price: u64,
    /// Set once when deactivation succeeds; never cleared.
    pub deactivated_at: Option<u64>,
    /// Salt proving the derived authority address for `identity`; immutable.
    pub authority_proof: u8,
}

impl Position {
    /// Structural invariant of every stored record: the unlock time is the
    /// overflow-free sum fixed at creation, and an active listing implies a
    /// positive price on a transferable record.
    pub open spec fn wf(self) -> bool {
        &&& self.unlock_time == self.start_time + self.lock_duration
        &&& self.for_sale ==> self.listed_price > 0 && self.transferable
        &&& !self.for_sale ==> self.listed_price == 0
    }

    /// The elapsed time has reached the configured lock duration.
    pub open spec fn matured(self, now: u64) -> bool {
        now >= self.unlock_time
    }

    /// Withdrawal is legal at `now`: maturity or the deactivation path.
    /// This is an or, not an and; deactivation is an alternative unlock.
    pub open spec fn withdrawable(self, now: u64) -> bool {
        self.matured(now) || self.deactivated_at is Some
    }

    /// The record with an active offer at `price`.
    pub open spec fn listed(self, price: u64) -> Position {
        Position { for_sale: true, listed_price: price, ..self }
    }

    /// The record with any offer cleared.
    pub open spec fn unlisted(self) -> Position {
        Position { for_sale: false, listed_price: 0, ..self }
    }

    /// The record marked deactivated at `now`.
    pub open spec fn deactivated(self, now: u64) -> Position {
        Position { deactivated_at: Some(now), ..self }
    }

    /// The record after a purchase by `buyer`: ownership moves, the listing
    /// is cleared, and the lock, delegation and custody fields are untouched.
    pub open spec fn sold_to(self, buyer: u64) -> Position {
        Position { owner: buyer, for_sale: false, listed_price: 0, ..self }
    }
}

} // verus!
