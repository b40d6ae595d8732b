//! The whole sale as one value: the configuration together with every
//! investor record, keyed by identity.
//!
//! The point of this module is the aggregate invariant: the configuration's
//! `total_allocated` is the sum of every record's allocation, and
//! `total_claimed` the sum of every record's claimed tokens, and every
//! operation preserves this.  The one exception is documented on `remove`:
//! removing an investor who has already released tokens reverses only the
//! unreleased remainder, which leaves the released part in
//! `total_allocated` for good.

use vstd::prelude::*;

use crate::claim::{
    block_investor, claim_tokens, lemma_claim_monotonic, remove_investor, spec_block_investor,
    spec_claim, spec_remove_investor,
};
use crate::errors::CustomError;
use crate::purchase::{
    purchase, spec_purchase, spec_whitelist_grant, whitelist_investor_by_admin, Currency,
};
use crate::state::{spec_zero_investor, AccountId, Investor, TokenIco};

verus! {

/// The sum of every record's allocation.
pub open spec fn sum_allocated(s: Seq<Investor>) -> int
    decreases s.len(),
{
    if s.len() == 0 {
        0
    } else {
        sum_allocated(s.drop_last()) + s.last().allocation
    }
}

/// The sum of every record's claimed tokens.
pub open spec fn sum_claimed(s: Seq<Investor>) -> int
    decreases s.len(),
{
    if s.len() == 0 {
        0
    } else {
        sum_claimed(s.drop_last()) + s.last().claimed_tokens
    }
}

/// Appending a record adds its counters to the sums.
proof fn lemma_sum_push(s: Seq<Investor>, v: Investor)
    ensures
        sum_allocated(s.push(v)) == sum_allocated(s) + v.allocation,
        sum_claimed(s.push(v)) == sum_claimed(s) + v.claimed_tokens,
{
    assert(s.push(v).drop_last() =~= s);
}

/// Replacing one record moves the sums by the difference of its counters.
proof fn lemma_sum_update(s: Seq<Investor>, i: int, v: Investor)
    requires
        0 <= i < s.len(),
    ensures
        sum_allocated(s.update(i, v)) == sum_allocated(s) - s[i].allocation + v.allocation,
        sum_claimed(s.update(i, v)) == sum_claimed(s) - s[i].claimed_tokens + v.claimed_tokens,
    decreases s.len(),
{
    if i == s.len() - 1 {
        assert(s.update(i, v).drop_last() =~= s.drop_last());
    } else {
        assert(s.update(i, v).drop_last() =~= s.drop_last().update(i, v));
        lemma_sum_update(s.drop_last(), i, v);
    }
}

/// Deleting one record takes its counters out of the sums.
proof fn lemma_sum_remove(s: Seq<Investor>, i: int)
    requires
        0 <= i < s.len(),
    ensures
        sum_allocated(s.remove(i)) == sum_allocated(s) - s[i].allocation,
        sum_claimed(s.remove(i)) == sum_claimed(s) - s[i].claimed_tokens,
    decreases s.len(),
{
    if i == s.len() - 1 {
        assert(s.remove(i) =~= s.drop_last());
    } else {
        assert(s.remove(i).drop_last() =~= s.drop_last().remove(i));
        lemma_sum_remove(s.drop_last(), i);
        assert(s.remove(i).last() == s.last());
    }
}

/// No two records share an identity.
pub open spec fn addresses_unique(s: Seq<Investor>) -> bool {
    forall|p: int, q: int|
        #![trigger s[p].address, s[q].address]
        0 <= p < q < s.len() ==> s[p].address != s[q].address
}

/// Every record is internally consistent: claims within the allocation,
/// and released tokens in step with claimed tokens.
pub open spec fn entries_consistent(s: Seq<Investor>) -> bool {
    forall|j: int| #![trigger s[j]] 0 <= j < s.len() ==> s[j].wf()
}

/// The index of the record with the given identity, if one exists.
pub open spec fn spec_find(s: Seq<Investor>, address: AccountId) -> Option<int> {
    if exists|j: int| #![trigger s[j]] 0 <= j < s.len() && s[j].address == address {
        Some(choose|j: int| #![trigger s[j]] 0 <= j < s.len() && s[j].address == address)
    } else {
        None
    }
}

/// With unique identities, an index holding the identity is the one
/// `spec_find` names.
proof fn lemma_find_unique(s: Seq<Investor>, address: AccountId, j: int)
    requires
        addresses_unique(s),
        0 <= j < s.len(),
        s[j].address == address,
    ensures
        spec_find(s, address) == Some(j),
{
    assert(exists|k: int| #![trigger s[k]] 0 <= k < s.len() && s[k].address == address);
    let k = choose|k: int| #![trigger s[k]] 0 <= k < s.len() && s[k].address == address;
    if k < j {
        assert(s[k].address != s[j].address);
    } else if j < k {
        assert(s[j].address != s[k].address);
    }
}


/// Replacing a record with one carrying the same identity keeps
/// identities unique.
proof fn lemma_unique_after_update(s: Seq<Investor>, i: int, v: Investor)
    requires
        addresses_unique(s),
        0 <= i < s.len(),
        v.address == s[i].address,
    ensures
        addresses_unique(s.update(i, v)),
{
    let s2 = s.update(i, v);
    assert forall|p: int, q: int| 0 <= p < q < s2.len() implies s2[p].address != s2[q].address by {
        assert(s[p].address != s[q].address);
        if p != i {
            assert(s2[p] == s[p]);
        }
        if q != i {
            assert(s2[q] == s[q]);
        }
    }
}

/// Replacing a record with a consistent one keeps every record
/// consistent.
proof fn lemma_consistent_after_update(s: Seq<Investor>, i: int, v: Investor)
    requires
        entries_consistent(s),
        0 <= i < s.len(),
        v.wf(),
    ensures
        entries_consistent(s.update(i, v)),
{
    let s2 = s.update(i, v);
    assert forall|j: int| 0 <= j < s2.len() implies #[trigger] s2[j].wf() by {
        if j != i {
            assert(s2[j] == s[j]);
            assert(s[j].wf());
        }
    }
}

/// Appending a record whose identity no record holds keeps identities
/// unique.
proof fn lemma_unique_after_push(s: Seq<Investor>, v: Investor)
    requires
        addresses_unique(s),
        forall|j: int| 0 <= j < s.len() ==> #[trigger] s[j].address != v.address,
    ensures
        addresses_unique(s.push(v)),
{
    let s2 = s.push(v);
    assert forall|p: int, q: int| 0 <= p < q < s2.len() implies s2[p].address != s2[q].address by {
        if q < s.len() {
            assert(s2[p] == s[p] && s2[q] == s[q]);
            assert(s[p].address != s[q].address);
        } else {
            assert(s2[p] == s[p]);
            assert(s[p].address != v.address);
        }
    }
}

/// Appending a consistent record keeps every record consistent.
proof fn lemma_consistent_after_push(s: Seq<Investor>, v: Investor)
    requires
        entries_consistent(s),
        v.wf(),
    ensures
        entries_consistent(s.push(v)),
{
    let s2 = s.push(v);
    assert forall|j: int| 0 <= j < s2.len() implies #[trigger] s2[j].wf() by {
        if j < s.len() {
            assert(s2[j] == s[j]);
            assert(s[j].wf());
        }
    }
}

/// Deleting a record keeps identities unique and the rest consistent.
proof fn lemma_wellformed_after_remove(s: Seq<Investor>, i: int)
    requires
        addresses_unique(s),
        entries_consistent(s),
        0 <= i < s.len(),
    ensures
        addresses_unique(s.remove(i)),
        entries_consistent(s.remove(i)),
{
    s.remove_ensures(i);
    let s2 = s.remove(i);
    assert forall|p: int, q: int| 0 <= p < q < s2.len() implies s2[p].address != s2[q].address by {
        let p0 = if p < i { p } else { p + 1 };
        let q0 = if q < i { q } else { q + 1 };
        assert(s2[p] == s[p0] && s2[q] == s[q0]);
        assert(s[p0].address != s[q0].address);
    }
    assert forall|j: int| 0 <= j < s2.len() implies #[trigger] s2[j].wf() by {
        let j0 = if j < i { j } else { j + 1 };
        assert(s2[j] == s[j0]);
        assert(s[j0].wf());
    }
}

/// The sale as one value: the configuration and every investor record.
pub struct SaleLedger {
    /// The sale configuration, aggregates included.
    pub config: TokenIco,
    /// One record per investor identity.
    pub investors: Vec<Investor>,
}

impl SaleLedger {
    /// The aggregate invariant: the configuration's totals are the sums
    /// over the records, identities are unique, and every record is
    /// internally consistent.
    pub open spec fn wf(self) -> bool {
        &&& self.config.total_allocated == sum_allocated(self.investors@)
        &&& self.config.total_claimed == sum_claimed(self.investors@)
        &&& addresses_unique(self.investors@)
        &&& entries_consistent(self.investors@)
    }

    /// Starts a sale from a configuration with zero aggregates and no
    /// investors.
    pub fn new(config: TokenIco) -> (r: SaleLedger)
        requires
            config.total_allocated == 0,
            config.total_claimed == 0,
        ensures
            r.wf(),
            r.config == config,
            r.investors@.len() == 0,
    {
        SaleLedger { config, investors: Vec::new() }
    }

    /// Finds the record index for an identity by scanning the records.
    pub fn find_investor(&self, address: AccountId) -> (r: Option<usize>)
        ensures
            (match r {
                Some(i) => i < self.investors@.len() && self.investors@[i as int].address
                    == address,
                None => forall|j: int|
                    0 <= j < self.investors@.len() ==> #[trigger] self.investors@[j].address
                        != address,
            }),
    {
        let n = self.investors.len();
        let mut idx: usize = 0;
        while idx < n
            invariant
                n == self.investors@.len(),
                idx <= n,
                forall|j: int| 0 <= j < idx ==> #[trigger] self.investors@[j].address != address,
            decreases n - idx,
        {
            if self.investors[idx].address == address {
                return Some(idx);
            }
            idx = idx + 1;
        }
        None
    }

    /// Books a purchase for `buyer`, creating their record on first touch.
    /// The per-record transition is `spec_purchase` from the existing
    /// record or the zero record; on an error nothing changes.
    pub fn purchase(
        &mut self,
        buyer: AccountId,
        amount: u64,
        currency: Currency,
        vesting_type: u8,
        current_time: u64,
    ) -> (r: Result<u64, CustomError>)
        requires
            old(self).wf(),
        ensures
            final(self).wf(),
            (match spec_find(old(self).investors@, buyer) {
                Some(j) => (match spec_purchase(
                    old(self).config,
                    old(self).investors@[j],
                    buyer,
                    amount,
                    currency,
                    vesting_type,
                    current_time,
                ) {
                    Ok((c2, i2, t)) => r == Ok::<u64, CustomError>(t) && final(self).config == c2
                        && final(self).investors@ == old(self).investors@.update(j, i2),
                    Err(e) => r == Err::<u64, CustomError>(e) && *final(self) == *old(self),
                }),
                None => (match spec_purchase(
                    old(self).config,
                    spec_zero_investor(),
                    buyer,
                    amount,
                    currency,
                    vesting_type,
                    current_time,
                ) {
                    Ok((c2, i2, t)) => r == Ok::<u64, CustomError>(t) && final(self).config == c2
                        && final(self).investors@ == old(self).investors@.push(i2),
                    Err(e) => r == Err::<u64, CustomError>(e) && *final(self) == *old(self),
                }),
            }),
    {
        let idx_opt = self.find_investor(buyer);
        let mut entry: Investor = match idx_opt {
            Some(i) => {
                proof {
                    lemma_find_unique(self.investors@, buyer, i as int);
                }
                self.investors[i]
            },
            None => Investor::zeroed(),
        };
        let mut cfg = self.config;
        match purchase(&mut cfg, &mut entry, buyer, amount, currency, vesting_type, current_time) {
            Ok(tokens) => {
                self.config = cfg;
                match idx_opt {
                    Some(i) => {
                        proof {
                            lemma_sum_update(old(self).investors@, i as int, entry);
                        }
                        self.investors[i] = entry;
                        proof {
                            assert(old(self).investors@[i as int].wf());
                            lemma_unique_after_update(old(self).investors@, i as int, entry);
                            lemma_consistent_after_update(old(self).investors@, i as int, entry);
                        }
                    },
                    None => {
                        proof {
                            lemma_sum_push(old(self).investors@, entry);
                        }
                        self.investors.push(entry);
                        proof {
                            lemma_unique_after_push(old(self).investors@, entry);
                            lemma_consistent_after_push(old(self).investors@, entry);
                        }
                    },
                }
                Ok(tokens)
            },
            Err(e) => Err(e),
        }
    }

    /// Grants `amount` tokens to `investor_address` directly, authorized
    /// against the configured authority, creating the record on first
    /// touch.  The per-record transition is `spec_whitelist_grant`.
    pub fn whitelist_grant(
        &mut self,
        caller: AccountId,
        investor_address: AccountId,
        amount: u64,
        vesting_type: u8,
        current_time: u64,
    ) -> (r: Result<u64, CustomError>)
        requires
            old(self).wf(),
        ensures
            final(self).wf(),
            (match spec_find(old(self).investors@, investor_address) {
                Some(j) => (match spec_whitelist_grant(
                    old(self).config,
                    old(self).investors@[j],
                    caller,
                    investor_address,
                    amount,
                    vesting_type,
                    current_time,
                ) {
                    Ok((c2, i2, t)) => r == Ok::<u64, CustomError>(t) && final(self).config == c2
                        && final(self).investors@ == old(self).investors@.update(j, i2),
                    Err(e) => r == Err::<u64, CustomError>(e) && *final(self) == *old(self),
                }),
                None => (match spec_whitelist_grant(
                    old(self).config,
                    spec_zero_investor(),
                    caller,
                    investor_address,
                    amount,
                    vesting_type,
                    current_time,
                ) {
                    Ok((c2, i2, t)) => r == Ok::<u64, CustomError>(t) && final(self).config == c2
                        && final(self).investors@ == old(self).investors@.push(i2),
                    Err(e) => r == Err::<u64, CustomError>(e) && *final(self) == *old(self),
                }),
            }),
    {
        let idx_opt = self.find_investor(investor_address);
        let mut entry: Investor = match idx_opt {
            Some(i) => {
                proof {
                    lemma_find_unique(self.investors@, investor_address, i as int);
                }
                self.investors[i]
            },
            None => Investor::zeroed(),
        };
        let mut cfg = self.config;
        match whitelist_investor_by_admin(
            &mut cfg,
            &mut entry,
            caller,
            investor_address,
            amount,
            vesting_type,
            current_time,
        ) {
            Ok(tokens) => {
                self.config = cfg;
                match idx_opt {
                    Some(i) => {
                        proof {
                            lemma_sum_update(old(self).investors@, i as int, entry);
                        }
                        self.investors[i] = entry;
                        proof {
                            assert(old(self).investors@[i as int].wf());
                            lemma_unique_after_update(old(self).investors@, i as int, entry);
                            lemma_consistent_after_update(old(self).investors@, i as int, entry);
                        }
                    },
                    None => {
                        proof {
                            lemma_sum_push(old(self).investors@, entry);
                        }
                        self.investors.push(entry);
                        proof {
                            lemma_unique_after_push(old(self).investors@, entry);
                            lemma_consistent_after_push(old(self).investors@, entry);
                        }
                    },
                }
                Ok(tokens)
            },
            Err(e) => Err(e),
        }
    }

    /// Settles a claim for `caller` at `current_time`.  An identity with
    /// no record cannot claim; otherwise the per-record transition is
    /// `spec_claim`; on an error nothing changes.
    pub fn claim(&mut self, caller: AccountId, current_time: u64, reserve_balance: u64) -> (r:
        Result<u64, CustomError>)
        requires
            old(self).wf(),
        ensures
            final(self).wf(),
            (match spec_find(old(self).investors@, caller) {
                None => r == Err::<u64, CustomError>(CustomError::InvestorNotFound) && *final(self)
                    == *old(self),
                Some(j) => (match spec_claim(
                    old(self).config,
                    old(self).investors@[j],
                    caller,
                    current_time,
                    reserve_balance,
                ) {
                    Ok((c2, i2, amount)) => r == Ok::<u64, CustomError>(amount) && final(self).config == c2 && final(self).investors@ == old(self).investors@.update(j, i2),
                    Err(e) => r == Err::<u64, CustomError>(e) && *final(self) == *old(self),
                }),
            }),
    {
        let idx_opt = self.find_investor(caller);
        let i = match idx_opt {
            Some(i) => i,
            None => {
                return Err(CustomError::InvestorNotFound);
            },
        };
        proof {
            lemma_find_unique(self.investors@, caller, i as int);
        }
        let mut entry: Investor = self.investors[i];
        let mut cfg = self.config;
        match claim_tokens(&mut cfg, &mut entry, caller, current_time, reserve_balance) {
            Ok(amount) => {
                proof {
                    lemma_sum_update(old(self).investors@, i as int, entry);
                    lemma_claim_monotonic(
                        old(self).config,
                        old(self).investors@[i as int],
                        caller,
                        current_time,
                        reserve_balance,
                    );
                }
                self.config = cfg;
                self.investors[i] = entry;
                proof {
                    assert(old(self).investors@[i as int].wf());
                    lemma_unique_after_update(old(self).investors@, i as int, entry);
                    lemma_consistent_after_update(old(self).investors@, i as int, entry);
                }
                Ok(amount)
            },
            Err(e) => Err(e),
        }
    }

    /// Removes the record under `investor_address`, reversing its
    /// unreleased remainder out of `total_allocated`; authority only.
    ///
    /// The aggregate invariant survives only when the removed investor had
    /// released nothing: removing one who already claimed leaves the
    /// released part in `total_allocated` with no record carrying it.
    pub fn remove(&mut self, caller: AccountId, investor_address: AccountId) -> (r: Result<
        (),
        CustomError,
    >)
        requires
            old(self).wf(),
        ensures
            (match spec_find(old(self).investors@, investor_address) {
                None => r == Err::<(), CustomError>(CustomError::InvestorNotFound) && *final(self)
                    == *old(self) && final(self).wf(),
                Some(j) => (match spec_remove_investor(
                    old(self).config,
                    old(self).investors@[j],
                    caller,
                ) {
                    Ok((c2, _reset)) => r == Ok::<(), CustomError>(()) && final(self).config == c2
                        && final(self).investors@ == old(self).investors@.remove(j) && (old(self).investors@[j].released_tokens == 0 ==> final(self).wf()),
                    Err(e) => r == Err::<(), CustomError>(e) && *final(self) == *old(self)
                        && final(self).wf(),
                }),
            }),
    {
        let idx_opt = self.find_investor(investor_address);
        let i = match idx_opt {
            Some(i) => i,
            None => {
                return Err(CustomError::InvestorNotFound);
            },
        };
        proof {
            lemma_find_unique(self.investors@, investor_address, i as int);
        }
        let mut entry: Investor = self.investors[i];
        let mut cfg = self.config;
        match remove_investor(&mut cfg, &mut entry, caller) {
            Ok(()) => {
                proof {
                    lemma_sum_remove(old(self).investors@, i as int);
                }
                self.config = cfg;
                self.investors.remove(i);
                proof {
                    lemma_wellformed_after_remove(old(self).investors@, i as int);
                }
                Ok(())
            },
            Err(e) => Err(e),
        }
    }

    /// Blocks the record under `investor_address` from claiming; authority
    /// only; allocation and claim counters stay.
    pub fn block(&mut self, caller: AccountId, investor_address: AccountId) -> (r: Result<
        (),
        CustomError,
    >)
        requires
            old(self).wf(),
        ensures
            final(self).wf(),
            (match spec_find(old(self).investors@, investor_address) {
                None => r == Err::<(), CustomError>(CustomError::InvestorNotFound) && *final(self)
                    == *old(self),
                Some(j) => (match spec_block_investor(
                    old(self).config,
                    old(self).investors@[j],
                    caller,
                ) {
                    Ok(i2) => r == Ok::<(), CustomError>(()) && final(self).config == old(self).config && final(self).investors@ == old(self).investors@.update(j, i2),
                    Err(e) => r == Err::<(), CustomError>(e) && *final(self) == *old(self),
                }),
            }),
    {
        let idx_opt = self.find_investor(investor_address);
        let i = match idx_opt {
            Some(i) => i,
            None => {
                return Err(CustomError::InvestorNotFound);
            },
        };
        proof {
            lemma_find_unique(self.investors@, investor_address, i as int);
        }
        let mut entry: Investor = self.investors[i];
        match block_investor(&self.config, &mut entry, caller) {
            Ok(()) => {
                proof {
                    lemma_sum_update(old(self).investors@, i as int, entry);
                }
                self.investors[i] = entry;
                proof {
                    assert(old(self).investors@[i as int].wf());
                    lemma_unique_after_update(old(self).investors@, i as int, entry);
                    lemma_consistent_after_update(old(self).investors@, i as int, entry);
                }
                Ok(())
            },
            Err(e) => Err(e),
        }
    }

    /// A copy of the record under an identity, if one exists.
    pub fn investor_record(&self, address: AccountId) -> (r: Option<Investor>)
        requires
            self.wf(),
        ensures
            r == (match spec_find(self.investors@, address) {
                Some(j) => Some(self.investors@[j]),
                None => None::<Investor>,
            }),
    {
        match self.find_investor(address) {
            Some(i) => {
                proof {
                    lemma_find_unique(self.investors@, address, i as int);
                }
                Some(self.investors[i])
            },
            None => None,
        }
    }
}

} // verus!
