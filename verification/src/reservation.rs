//! The cost-reservation guard: a scoped, ownership-transferring handle around
//! a pending balance debit.
//!
//! A reservation is created the instant a cost is deducted from an in-memory
//! copy of the payer's record. Exactly one of two disposals follows, and
//! ownership enforces it: both consume the guard. `commit`, called when the
//! paid-for action is confirmed successful, hands back the debited record as
//! the one write to persist. `expire`, taken on every other path, persists
//! nothing, so the last durably written balance — the pre-debit value —
//! stays authoritative. The charge is therefore durably applied if and only
//! if the guarded action succeeded.

use vstd::prelude::*;
use crate::data::User;

verus! {

/// Cost of starting playback.
pub const PLAYER_COST: u32 = 5;

/// Cost of posting a suggestion.
pub const SUGGEST_COST: u32 = 10;

pub struct CostReservation {
    owner: u64,
    debited: User,
}

impl CostReservation {
    /// The payer whose record the pending write would update.
    pub closed spec fn spec_owner(&self) -> u64 {
        self.owner
    }

    /// The debited in-memory record the guard protects.
    pub closed spec fn spec_record(&self) -> User {
        self.debited
    }

    /// Deducts `cost` from a local copy of `record` and arms a guard over the
    /// debited copy.
    pub fn reserve(owner: u64, record: &User, cost: u32) -> (r: (User, Self))
        requires
            record.cash >= cost,
        ensures
            r.1.spec_owner() == owner,
            r.1.spec_record() == r.0,
            r.0.cash == record.cash - cost,
            r.0.exp == record.exp,
            r.0.last_allowance == record.last_allowance,
    {
        let debited = User {
            cash: record.cash - cost,
            exp: record.exp,
            last_allowance: record.last_allowance,
        };
        (debited, CostReservation { owner, debited })
    }

    /// Reserves `cost` where the balance covers it — the guard comes back
    /// exactly then — and refuses the debit, touching nothing, where it does
    /// not.
    pub fn try_reserve(owner: u64, record: &User, cost: u32) -> (r: Option<(User, Self)>)
        ensures
            r is Some <==> record.cash >= cost,
            r matches Some(g) ==> {
                &&& g.1.spec_owner() == owner
                &&& g.1.spec_record() == g.0
                &&& g.0.cash == record.cash - cost
                &&& g.0.exp == record.exp
                &&& g.0.last_allowance == record.last_allowance
            },
    {
        if record.cash >= cost {
            Some(Self::reserve(owner, record, cost))
        } else {
            None
        }
    }

    pub fn owner(&self) -> (r: u64)
        ensures
            r == self.spec_owner(),
    {
        self.owner
    }

    pub fn record(&self) -> (r: &User)
        ensures
            *r == self.spec_record(),
    {
        &self.debited
    }

    /// Confirmed success: consumes the guard and hands back the debited
    /// record as the one write that must now be persisted.
    pub fn commit(self) -> (w: (u64, User))
        ensures
            w.0 == self.spec_owner(),
            w.1 == self.spec_record(),
    {
        (self.owner, self.debited)
    }

    /// Expiry without commit: the rollback path. Nothing is handed back and
    /// nothing is persisted; the stored pre-debit balance stays authoritative.
    pub fn expire(self) {
    }

    /// Single disposal of the guard: the pending write exists exactly on the
    /// success path, and it is exactly the debited record.
    pub fn resolve(self, success: bool) -> (w: Option<(u64, User)>)
        ensures
            w is Some <==> success,
            success ==> w == Some((self.spec_owner(), self.spec_record())),
    {
        if success {
            Some(self.commit())
        } else {
            self.expire();
            None
        }
    }
}

} // verus!
