//! The persistent state of the custody system and the operations of the
//! position lifecycle: creation, the marketplace, deactivation and the
//! terminal withdrawal. Each operation checks every precondition before it
//! mutates anything, so a refused operation changes nothing; the hosting
//! runtime serializes operations per record and commits them atomically.

use std::collections::HashMap;

use vstd::prelude::*;

use crate::authority::{authority_seeds, derive_authority, derived_authority};
use crate::errors::ErrorKind;
use crate::position::Position;

verus! {

broadcast use vstd::std_specs::hash::group_hash_axioms;

/// The mathematical state of a ledger: the program id that scopes
/// authority derivation, the stored records keyed by identity, and the
/// balance of every funded account.
#[verifier::ext_equal]
pub struct LedgerState {
    pub program: Seq<u8>,
    pub recs: Map<u64, Position>,
    pub bals: Map<u64, u64>,
}

impl LedgerState {
    /// Every stored record is well formed and keyed by its own identity.
    pub open spec fn wf(self) -> bool {
        forall|k: u64| #[trigger]
            self.recs.contains_key(k) ==> self.recs[k].wf() && self.recs[k].identity == k
    }

    /// The balance of an account; an account never funded holds zero.
    pub open spec fn bal(self, account: u64) -> u64 {
        if self.bals.contains_key(account) {
            self.bals[account]
        } else {
            0
        }
    }

    /// The balances after moving `amount` from `from` to `to`; a move to
    /// oneself moves nothing. Meaningful when `from` holds at least
    /// `amount` and the receiving balance cannot overflow.
    pub open spec fn paid(self, from: u64, to: u64, amount: u64) -> LedgerState {
        if from == to {
            self
        } else {
            LedgerState {
                bals: self.bals.insert(from, (self.bal(from) - amount) as u64).insert(
                    to,
                    (self.bal(to) + amount) as u64,
                ),
                ..self
            }
        }
    }

    /// What the value-transfer primitive does: an exact, atomic move,
    /// refused by the primitive when funds are missing and refused here
    /// when the receiving balance would overflow.
    pub open spec fn transfer_outcome(self, from: u64, to: u64, amount: u64) -> (Result<
        (),
        ErrorKind,
    >, LedgerState) {
        if self.bal(from) < amount {
            (Err(ErrorKind::ExternalFailure), self)
        } else if from != to && self.bal(to) + amount > u64::MAX {
            (Err(ErrorKind::ArithmeticOverflow), self)
        } else {
            (Ok(()), self.paid(from, to, amount))
        }
    }

    /// What `deposit` does: external funding credited to one account.
    pub open spec fn deposit_outcome(self, account: u64, amount: u64) -> (Result<
        (),
        ErrorKind,
    >, LedgerState) {
        if self.bal(account) + amount > u64::MAX {
            (Err(ErrorKind::ArithmeticOverflow), self)
        } else {
            (
                Ok(()),
                LedgerState {
                    bals: self.bals.insert(account, (self.bal(account) + amount) as u64),
                    ..self
                },
            )
        }
    }

    /// What `create_position` decides and stores for every input: the
    /// identity must be free, the unlock time must not overflow, the
    /// custody account must hold value, and the authority must be
    /// derivable; the new record captures the custody balance and starts
    /// unlisted and undeactivated.
    pub open spec fn create_outcome(
        self,
        identity: u64,
        owner: u64,
        delegation_target: u64,
        custody_account: u64,
        transferable: bool,
        lock_duration: u64,
        now: u64,
    ) -> (Result<(), ErrorKind>, LedgerState) {
        if self.recs.contains_key(identity) {
            (Err(ErrorKind::StateConflict), self)
        } else if now + lock_duration > u64::MAX {
            (Err(ErrorKind::InvalidInput), self)
        } else if self.bal(custody_account) == 0 {
            (Err(ErrorKind::InvalidInput), self)
        } else {
            match derived_authority(authority_seeds(identity), self.program) {
                None => (Err(ErrorKind::ExternalFailure), self),
                Some(pair) => (
                    Ok(()),
                    LedgerState {
                        recs: self.recs.insert(
                            identity,
                            Position {
                                identity,
                                owner,
                                delegation_target,
                                custody_account,
                                amount: self.bal(custody_account),
                                start_time: now,
                                lock_duration,
                                unlock_time: (now + lock_duration) as u64,
                                transferable,
                                for_sale: false,
                                listed_price: 0,
                                deactivated_at: None,
                                authority_proof: pair.1,
                            },
                        ),
                        ..self
                    },
                ),
            }
        }
    }

    /// What `list_for_sale` decides: owner only, transferable records
    /// only, positive price only; re-listing overwrites the price.
    pub open spec fn list_outcome(self, identity: u64, caller: u64, price: u64) -> (Result<
        (),
        ErrorKind,
    >, LedgerState) {
        if !self.recs.contains_key(identity) {
            (Err(ErrorKind::RecordNotFound), self)
        } else {
            let p = self.recs[identity];
            if caller != p.owner {
                (Err(ErrorKind::Unauthorized), self)
            } else if !p.transferable {
                (Err(ErrorKind::StateConflict), self)
            } else if price == 0 {
                (Err(ErrorKind::InvalidInput), self)
            } else {
                (Ok(()), LedgerState { recs: self.recs.insert(identity, p.listed(price)), ..self })
            }
        }
    }

    /// What `cancel_sale` decides: owner only; clearing an absent offer is
    /// a legal no-op.
    pub open spec fn cancel_outcome(self, identity: u64, caller: u64) -> (Result<
        (),
        ErrorKind,
    >, LedgerState) {
        if !self.recs.contains_key(identity) {
            (Err(ErrorKind::RecordNotFound), self)
        } else {
            let p = self.recs[identity];
            if caller != p.owner {
                (Err(ErrorKind::Unauthorized), self)
            } else {
                (Ok(()), LedgerState { recs: self.recs.insert(identity, p.unlisted()), ..self })
            }
        }
    }

    /// What `buy_position` decides: the record must be listed (which, for
    /// a well-formed record, implies transferable and a positive price),
    /// the named seller must still be the owner, the buyer must hold the
    /// price, and crediting the seller must not overflow; then the price
    /// moves from buyer to seller and ownership moves to the buyer with
    /// the listing cleared.
    pub open spec fn buy_outcome(self, identity: u64, buyer: u64, expected_seller: u64) -> (Result<
        (),
        ErrorKind,
    >, LedgerState) {
        if !self.recs.contains_key(identity) {
            (Err(ErrorKind::RecordNotFound), self)
        } else {
            let p = self.recs[identity];
            if !(p.for_sale && p.transferable && p.listed_price > 0) {
                (Err(ErrorKind::StateConflict), self)
            } else if expected_seller != p.owner {
                (Err(ErrorKind::Unauthorized), self)
            } else if self.bal(buyer) < p.listed_price {
                (Err(ErrorKind::ExternalFailure), self)
            } else if buyer != p.owner && self.bal(p.owner) + p.listed_price > u64::MAX {
                (Err(ErrorKind::ArithmeticOverflow), self)
            } else {
                let paid_state = self.paid(buyer, p.owner, p.listed_price);
                (
                    Ok(()),
                    LedgerState {
                        recs: paid_state.recs.insert(identity, p.sold_to(buyer)),
                        ..paid_state
                    },
                )
            }
        }
    }

    /// What `deactivate` decides: owner only, once only; the mark records
    /// the current time and is never cleared.
    pub open spec fn deactivate_outcome(self, identity: u64, caller: u64, now: u64) -> (Result<
        (),
        ErrorKind,
    >, LedgerState) {
        if !self.recs.contains_key(identity) {
            (Err(ErrorKind::RecordNotFound), self)
        } else {
            let p = self.recs[identity];
            if caller != p.owner {
                (Err(ErrorKind::Unauthorized), self)
            } else if p.deactivated_at is Some {
                (Err(ErrorKind::StateConflict), self)
            } else {
                (
                    Ok(()),
                    LedgerState { recs: self.recs.insert(identity, p.deactivated(now)), ..self },
                )
            }
        }
    }

    /// What `withdraw` decides: owner only, and only once the record has
    /// matured or was deactivated — an or, not an and. The full live
    /// custody balance moves to the owner and the record is destroyed.
    pub open spec fn withdraw_outcome(self, identity: u64, caller: u64, now: u64) -> (Result<
        u64,
        ErrorKind,
    >, LedgerState) {
        if !self.recs.contains_key(identity) {
            (Err(ErrorKind::RecordNotFound), self)
        } else {
            let p = self.recs[identity];
            if caller != p.owner {
                (Err(ErrorKind::Unauthorized), self)
            } else if !p.withdrawable(now) {
                (Err(ErrorKind::StateConflict), self)
            } else {
                let amount = self.bal(p.custody_account);
                if caller != p.custody_account && self.bal(caller) + amount > u64::MAX {
                    (Err(ErrorKind::ArithmeticOverflow), self)
                } else {
                    let paid_state = self.paid(p.custody_account, caller, amount);
                    (
                        Ok(amount),
                        LedgerState { recs: paid_state.recs.remove(identity), ..paid_state },
                    )
                }
            }
        }
    }
}

/// The executable ledger. Only the operations below mutate it, so every
/// reachable ledger satisfies `wf`.
pub struct Ledger {
    program_id: [u8; 32],
    positions: HashMap<u64, Position>,
    balances: HashMap<u64, u64>,
}

impl View for Ledger {
    type V = LedgerState;

    closed spec fn view(&self) -> LedgerState {
        LedgerState { program: self.program_id@, recs: self.positions@, bals: self.balances@ }
    }
}

impl Ledger {
    /// A fresh ledger with no records and no funded accounts.
    pub fn new(program_id: [u8; 32]) -> (l: Ledger)
        ensures
            l@.wf(),
            l@.program == program_id@,
            l@.recs == Map::<u64, Position>::empty(),
            l@.bals == Map::<u64, u64>::empty(),
    {
        Ledger { program_id, positions: HashMap::new(), balances: HashMap::new() }
    }

    /// The balance of an account; never-funded accounts hold zero.
    pub fn balance_of(&self, account: u64) -> (r: u64)
        ensures
            r == self@.bal(account),
    {
        match self.balances.get(&account) {
            Some(b) => *b,
            None => 0,
        }
    }

    /// The stored record under `identity`, if any.
    pub fn get_position(&self, identity: u64) -> (r: Option<Position>)
        ensures
            r == (if self@.recs.contains_key(identity) {
                Some(self@.recs[identity])
            } else {
                None::<Position>
            }),
    {
        match self.positions.get(&identity) {
            Some(p) => Some(*p),
            None => None,
        }
    }

    /// Credits external funding to an account, refusing overflow.
    pub fn deposit(&mut self, account: u64, amount: u64) -> (r: Result<(), ErrorKind>)
        ensures
            ({
                let (r2, s2) = old(self)@.deposit_outcome(account, amount);
                r == r2 && final(self)@ == s2
            }),
    {
        let b = self.balance_of(account);
        match b.checked_add(amount) {
            None => Err(ErrorKind::ArithmeticOverflow),
            Some(nb) => {
                self.balances.insert(account, nb);
                proof {
                    assert(self@ =~= old(self)@.deposit_outcome(account, amount).1);
                }
                Ok(())
            },
        }
    }

    /// Moves `amount` from `from` to `to`: the value-transfer primitive,
    /// all-or-nothing.
    pub fn transfer(&mut self, from: u64, to: u64, amount: u64) -> (r: Result<(), ErrorKind>)
        ensures
            ({
                let (r2, s2) = old(self)@.transfer_outcome(from, to, amount);
                r == r2 && final(self)@ == s2
            }),
    {
        let from_bal = self.balance_of(from);
        if from_bal < amount {
            return Err(ErrorKind::ExternalFailure);
        }
        if from == to {
            return Ok(());
        }
        let to_bal = self.balance_of(to);
        match to_bal.checked_add(amount) {
            None => Err(ErrorKind::ArithmeticOverflow),
            Some(nb) => {
                self.balances.insert(from, from_bal - amount);
                self.balances.insert(to, nb);
                proof {
                    assert(self@ =~= old(self)@.transfer_outcome(from, to, amount).1);
                }
                Ok(())
            },
        }
    }

    /// Creates a position: binds identity, owner, delegation target and
    /// lock terms, captures the live custody balance as the locked amount,
    /// and derives the position's authority, storing its proof. The
    /// identity must be free; re-creating one freed by a withdrawal starts
    /// a fresh, independent lifecycle. The unlock time is computed once,
    /// with an explicit overflow check, and never recomputed.
    pub fn create_position(
        &mut self,
        identity: u64,
        owner: u64,
        delegation_target: u64,
        custody_account: u64,
        transferable: bool,
        lock_duration: u64,
        now: u64,
    ) -> (r: Result<(), ErrorKind>)
        requires
            old(self)@.wf(),
        ensures
            final(self)@.wf(),
            ({
                let (r2, s2) = old(self)@.create_outcome(
                    identity,
                    owner,
                    delegation_target,
                    custody_account,
                    transferable,
                    lock_duration,
                    now,
                );
                r == r2 && final(self)@ == s2
            }),
    {
        if self.positions.contains_key(&identity) {
            return Err(ErrorKind::StateConflict);
        }
        let unlock_time = match now.checked_add(lock_duration) {
            None => {
                return Err(ErrorKind::InvalidInput);
            },
            Some(t) => t,
        };
        let amount = self.balance_of(custody_account);
        if amount == 0 {
            return Err(ErrorKind::InvalidInput);
        }
        match derive_authority(identity, &self.program_id) {
            None => Err(ErrorKind::ExternalFailure),
            Some((_address, bump)) => {
                let p = Position {
                    identity,
                    owner,
                    delegation_target,
                    custody_account,
                    amount,
                    start_time: now,
                    lock_duration,
                    unlock_time,
                    transferable,
                    for_sale: false,
                    listed_price: 0,
                    deactivated_at: None,
                    authority_proof: bump,
                };
                self.positions.insert(identity, p);
                proof {
                    let s2 = old(self)@.create_outcome(
                        identity,
                        owner,
                        delegation_target,
                        custody_account,
                        transferable,
                        lock_duration,
                        now,
                    ).1;
                    assert(self@ =~= s2);
                    assert forall|k: u64| #[trigger]
                        self@.recs.contains_key(k) implies self@.recs[k].wf()
                        && self@.recs[k].identity == k by {
                        if k != identity {
                            assert(old(self)@.recs.contains_key(k));
                        }
                    }
                }
                Ok(())
            },
        }
    }

    /// Places or re-prices an offer on the owner's transferable position.
    pub fn list_for_sale(&mut self, identity: u64, caller: u64, price: u64) -> (r: Result<
        (),
        ErrorKind,
    >)
        requires
            old(self)@.wf(),
        ensures
            final(self)@.wf(),
            ({
                let (r2, s2) = old(self)@.list_outcome(identity, caller, price);
                r == r2 && final(self)@ == s2
            }),
    {
        let p = match self.positions.get(&identity) {
            None => {
                return Err(ErrorKind::RecordNotFound);
            },
            Some(p) => *p,
        };
        if caller != p.owner {
            return Err(ErrorKind::Unauthorized);
        }
        if !p.transferable {
            return Err(ErrorKind::StateConflict);
        }
        if price == 0 {
            return Err(ErrorKind::InvalidInput);
        }
        let mut p2 = p;
        p2.for_sale = true;
        p2.listed_price = price;
        self.positions.insert(identity, p2);
        proof {
            assert(p2 == p.listed(price));
            assert(self@ =~= old(self)@.list_outcome(identity, caller, price).1);
            assert forall|k: u64| #[trigger]
                self@.recs.contains_key(k) implies self@.recs[k].wf() && self@.recs[k].identity
                == k by {
                if k != identity {
                    assert(old(self)@.recs.contains_key(k));
                }
            }
        }
        Ok(())
    }

    /// Clears any offer on the owner's position; legal, and a no-op, even
    /// when nothing is listed.
    pub fn cancel_sale(&mut self, identity: u64, caller: u64) -> (r: Result<(), ErrorKind>)
        requires
            old(self)@.wf(),
        ensures
            final(self)@.wf(),
            ({
                let (r2, s2) = old(self)@.cancel_outcome(identity, caller);
                r == r2 && final(self)@ == s2
            }),
    {
        let p = match self.positions.get(&identity) {
            None => {
                return Err(ErrorKind::RecordNotFound);
            },
            Some(p) => *p,
        };
        if caller != p.owner {
            return Err(ErrorKind::Unauthorized);
        }
        let mut p2 = p;
        p2.for_sale = false;
        p2.listed_price = 0;
        self.positions.insert(identity, p2);
        proof {
            assert(p2 == p.unlisted());
            assert(self@ =~= old(self)@.cancel_outcome(identity, caller).1);
            assert forall|k: u64| #[trigger]
                self@.recs.contains_key(k) implies self@.recs[k].wf() && self@.recs[k].identity
                == k by {
                if k != identity {
                    assert(old(self)@.recs.contains_key(k));
                }
            }
        }
        Ok(())
    }

    /// Transfers ownership of a listed position to `buyer` against atomic
    /// payment of the listed price to the current owner. The lock timer,
    /// delegation target and custody account are untouched: only the right
    /// to eventually withdraw changes hands. `expected_seller` defends
    /// against offers made stale by a concurrent ownership change.
    pub fn buy_position(&mut self, identity: u64, buyer: u64, expected_seller: u64) -> (r: Result<
        (),
        ErrorKind,
    >)
        requires
            old(self)@.wf(),
        ensures
            final(self)@.wf(),
            ({
                let (r2, s2) = old(self)@.buy_outcome(identity, buyer, expected_seller);
                r == r2 && final(self)@ == s2
            }),
    {
        let p = match self.positions.get(&identity) {
            None => {
                return Err(ErrorKind::RecordNotFound);
            },
            Some(p) => *p,
        };
        if !(p.for_sale && p.transferable && p.listed_price > 0) {
            return Err(ErrorKind::StateConflict);
        }
        if expected_seller != p.owner {
            return Err(ErrorKind::Unauthorized);
        }
        let buyer_bal = self.balance_of(buyer);
        if buyer_bal < p.listed_price {
            return Err(ErrorKind::ExternalFailure);
        }
        if buyer != p.owner {
            let seller_bal = self.balance_of(p.owner);
            match seller_bal.checked_add(p.listed_price) {
                None => {
                    return Err(ErrorKind::ArithmeticOverflow);
                },
                Some(nb) => {
                    self.balances.insert(buyer, buyer_bal - p.listed_price);
                    self.balances.insert(p.owner, nb);
                },
            }
        }
        let mut p2 = p;
        p2.owner = buyer;
        p2.for_sale = false;
        p2.listed_price = 0;
        self.positions.insert(identity, p2);
        proof {
            assert(p2 == p.sold_to(buyer));
            assert(self@ =~= old(self)@.buy_outcome(identity, buyer, expected_seller).1);
            assert forall|k: u64| #[trigger]
                self@.recs.contains_key(k) implies self@.recs[k].wf() && self@.recs[k].identity
                == k by {
                if k != identity {
                    assert(old(self)@.recs.contains_key(k));
                }
            }
        }
        Ok(())
    }

    /// Marks the owner's position deactivated at `now`, opening the early
    /// unlock path. Deactivation is one-way: a second call is refused and
    /// the mark is never cleared.
    pub fn deactivate(&mut self, identity: u64, caller: u64, now: u64) -> (r: Result<
        (),
        ErrorKind,
    >)
        requires
            old(self)@.wf(),
        ensures
            final(self)@.wf(),
            ({
                let (r2, s2) = old(self)@.deactivate_outcome(identity, caller, now);
                r == r2 && final(self)@ == s2
            }),
    {
        let p = match self.positions.get(&identity) {
            None => {
                return Err(ErrorKind::RecordNotFound);
            },
            Some(p) => *p,
        };
        if caller != p.owner {
            return Err(ErrorKind::Unauthorized);
        }
        if p.deactivated_at.is_some() {
            return Err(ErrorKind::StateConflict);
        }
        let mut p2 = p;
        p2.deactivated_at = Some(now);
        self.positions.insert(identity, p2);
        proof {
            assert(p2 == p.deactivated(now));
            assert(self@ =~= old(self)@.deactivate_outcome(identity, caller, now).1);
            assert forall|k: u64| #[trigger]
                self@.recs.contains_key(k) implies self@.recs[k].wf() && self@.recs[k].identity
                == k by {
                if k != identity {
                    assert(old(self)@.recs.contains_key(k));
                }
            }
        }
        Ok(())
    }

    /// Withdraws the owner's matured or deactivated position: the full
    /// live custody balance moves to the owner and the record is
    /// destroyed. Withdrawal is legal exactly when the unlock time has
    /// passed or the record was deactivated, and it is terminal: the
    /// record no longer exists afterwards.
    pub fn withdraw(&mut self, identity: u64, caller: u64, now: u64) -> (r: Result<u64, ErrorKind>)
        requires
            old(self)@.wf(),
        ensures
            final(self)@.wf(),
            ({
                let (r2, s2) = old(self)@.withdraw_outcome(identity, caller, now);
                r == r2 && final(self)@ == s2
            }),
    {
        let p = match self.positions.get(&identity) {
            None => {
                return Err(ErrorKind::RecordNotFound);
            },
            Some(p) => *p,
        };
        if caller != p.owner {
            return Err(ErrorKind::Unauthorized);
        }
        if !(now >= p.unlock_time || p.deactivated_at.is_some()) {
            return Err(ErrorKind::StateConflict);
        }
        let amount = self.balance_of(p.custody_account);
        if caller != p.custody_account {
            let caller_bal = self.balance_of(caller);
            match caller_bal.checked_add(amount) {
                None => {
                    return Err(ErrorKind::ArithmeticOverflow);
                },
                Some(nb) => {
                    self.balances.insert(p.custody_account, 0);
                    self.balances.insert(caller, nb);
                },
            }
        }
        self.positions.remove(&identity);
        proof {
            assert(self@ =~= old(self)@.withdraw_outcome(identity, caller, now).1);
            assert forall|k: u64| #[trigger]
                self@.recs.contains_key(k) implies self@.recs[k].wf() && self@.recs[k].identity
                == k by {
                assert(old(self)@.recs.contains_key(k));
            }
        }
        Ok(amount)
    }
}

/// Lock monotonicity: an owner's withdrawal strictly before the unlock
/// time and without a deactivation always fails with a state conflict —
/// never with a different error kind — and changes nothing.
pub proof fn lemma_lock_monotonicity(s: LedgerState, identity: u64, caller: u64, now: u64)
    requires
        s.wf(),
        s.recs.contains_key(identity),
        caller == s.recs[identity].owner,
        now < s.recs[identity].start_time + s.recs[identity].lock_duration,
        s.recs[identity].deactivated_at is None,
    ensures
        s.withdraw_outcome(identity, caller, now) == (
            Err::<u64, ErrorKind>(ErrorKind::StateConflict),
            s,
        ),
{
}

/// Deactivation is one-way: it succeeds once on an undeactivated record
/// and a second call is refused with a state conflict, whatever times the
/// two calls are made at.
pub proof fn lemma_deactivate_is_one_way(
    s: LedgerState,
    identity: u64,
    caller: u64,
    t1: u64,
    t2: u64,
)
    requires
        s.recs.contains_key(identity),
        caller == s.recs[identity].owner,
        s.recs[identity].deactivated_at is None,
    ensures
        s.deactivate_outcome(identity, caller, t1).0 == Ok::<(), ErrorKind>(()),
        ({
            let s1 = s.deactivate_outcome(identity, caller, t1).1;
            s1.deactivate_outcome(identity, caller, t2) == (
                Err::<(), ErrorKind>(ErrorKind::StateConflict),
                s1,
            )
        }),
{
}

/// After one successful deactivation, withdrawal succeeds regardless of
/// elapsed time — deactivation is an alternative unlock path, not an
/// additional requirement — as long as crediting the owner cannot
/// overflow.
pub proof fn lemma_deactivated_unlocks(
    s: LedgerState,
    identity: u64,
    caller: u64,
    t1: u64,
    now: u64,
)
    requires
        s.recs.contains_key(identity),
        caller == s.recs[identity].owner,
        s.recs[identity].deactivated_at is None,
        caller == s.recs[identity].custody_account || s.bal(caller) + s.bal(
            s.recs[identity].custody_account,
        ) <= u64::MAX,
    ensures
        ({
            let s1 = s.deactivate_outcome(identity, caller, t1).1;
            s1.withdraw_outcome(identity, caller, now).0 == Ok::<u64, ErrorKind>(
                s.bal(s.recs[identity].custody_account),
            )
        }),
{
}

/// Marketplace consistency: a successful listing sets exactly the offer,
/// cancelling clears it, and a purchase is refused while the record is not
/// listed or not transferable, or while the buyer's funds fall short of
/// the listed price.
pub proof fn lemma_marketplace_consistency(
    s: LedgerState,
    identity: u64,
    caller: u64,
    price: u64,
    buyer: u64,
    seller: u64,
)
    requires
        s.recs.contains_key(identity),
        caller == s.recs[identity].owner,
    ensures
        s.recs[identity].transferable && price > 0 ==> ({
            let (r1, s1) = s.list_outcome(identity, caller, price);
            &&& r1 == Ok::<(), ErrorKind>(())
            &&& s1.recs[identity].for_sale
            &&& s1.recs[identity].listed_price == price
        }),
        ({
            let (r2, s2) = s.cancel_outcome(identity, caller);
            &&& r2 == Ok::<(), ErrorKind>(())
            &&& !s2.recs[identity].for_sale
            &&& s2.recs[identity].listed_price == 0
        }),
        !s.recs[identity].for_sale ==> s.buy_outcome(identity, buyer, seller).0 == Err::<
            (),
            ErrorKind,
        >(ErrorKind::StateConflict),
        !s.recs[identity].transferable ==> s.buy_outcome(identity, buyer, seller).0 == Err::<
            (),
            ErrorKind,
        >(ErrorKind::StateConflict),
        s.recs[identity].for_sale && s.recs[identity].transferable && s.recs[identity].listed_price
            > 0 && seller == s.recs[identity].owner && s.bal(buyer) < s.recs[identity].listed_price
            ==> s.buy_outcome(identity, buyer, seller).0 == Err::<(), ErrorKind>(
            ErrorKind::ExternalFailure,
        ),
{
}

/// Ownership transfer round trip: a successful purchase makes the buyer
/// the owner, clears the listing, moves exactly the listed price from the
/// buyer to the seller, conserves their combined value, and touches
/// neither the lock nor the delegation.
pub proof fn lemma_ownership_transfer(s: LedgerState, identity: u64, buyer: u64, seller: u64)
    requires
        s.wf(),
        s.recs.contains_key(identity),
        s.buy_outcome(identity, buyer, seller).0 is Ok,
    ensures
        ({
            let p = s.recs[identity];
            let s1 = s.buy_outcome(identity, buyer, seller).1;
            &&& s1.recs[identity].owner == buyer
            &&& !s1.recs[identity].for_sale
            &&& s1.recs[identity].listed_price == 0
            &&& buyer != p.owner ==> s1.bal(buyer) == s.bal(buyer) - p.listed_price
            &&& buyer != p.owner ==> s1.bal(p.owner) == s.bal(p.owner) + p.listed_price
            &&& s1.bal(buyer) + s1.bal(p.owner) == s.bal(buyer) + s.bal(p.owner)
            &&& s1.recs[identity].unlock_time == p.unlock_time
            &&& s1.recs[identity].deactivated_at == p.deactivated_at
            &&& s1.recs[identity].custody_account == p.custody_account
            &&& s1.recs[identity].delegation_target == p.delegation_target
        }),
{
}

/// Authorization gating: every owner-gated operation refuses any caller
/// other than the record's current owner — even when all its other
/// preconditions hold — and changes nothing; a purchase naming a stale
/// seller is refused the same way.
pub proof fn lemma_authorization_gating(
    s: LedgerState,
    identity: u64,
    caller: u64,
    price: u64,
    now: u64,
    buyer: u64,
)
    requires
        s.recs.contains_key(identity),
        caller != s.recs[identity].owner,
    ensures
        s.list_outcome(identity, caller, price) == (
            Err::<(), ErrorKind>(ErrorKind::Unauthorized),
            s,
        ),
        s.cancel_outcome(identity, caller) == (Err::<(), ErrorKind>(ErrorKind::Unauthorized), s),
        s.deactivate_outcome(identity, caller, now) == (
            Err::<(), ErrorKind>(ErrorKind::Unauthorized),
            s,
        ),
        s.withdraw_outcome(identity, caller, now) == (
            Err::<u64, ErrorKind>(ErrorKind::Unauthorized),
            s,
        ),
        s.recs[identity].for_sale && s.recs[identity].transferable && s.recs[identity].listed_price
            > 0 ==> s.buy_outcome(identity, buyer, caller) == (
            Err::<(), ErrorKind>(ErrorKind::Unauthorized),
            s,
        ),
{
}

/// Terminal destruction: a successful withdrawal destroys the record, and
/// every subsequent operation naming the identity reports that no record
/// exists and changes nothing. Re-creating the identity is allowed and
/// starts a fresh, independent lifecycle.
pub proof fn lemma_terminal_destruction(
    s: LedgerState,
    identity: u64,
    caller: u64,
    now: u64,
    a: u64,
    b: u64,
    t: u64,
)
    requires
        s.withdraw_outcome(identity, caller, now).0 is Ok,
    ensures
        ({
            let s1 = s.withdraw_outcome(identity, caller, now).1;
            &&& !s1.recs.contains_key(identity)
            &&& s1.list_outcome(identity, a, b) == (
                Err::<(), ErrorKind>(ErrorKind::RecordNotFound),
                s1,
            )
            &&& s1.cancel_outcome(identity, a) == (
                Err::<(), ErrorKind>(ErrorKind::RecordNotFound),
                s1,
            )
            &&& s1.buy_outcome(identity, a, b) == (
                Err::<(), ErrorKind>(ErrorKind::RecordNotFound),
                s1,
            )
            &&& s1.deactivate_outcome(identity, a, t) == (
                Err::<(), ErrorKind>(ErrorKind::RecordNotFound),
                s1,
            )
            &&& s1.withdraw_outcome(identity, a, t) == (
                Err::<u64, ErrorKind>(ErrorKind::RecordNotFound),
                s1,
            )
        }),
{
}

} // verus!
