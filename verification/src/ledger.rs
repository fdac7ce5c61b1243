//! The custodial balance ledger: deposits draw on the locked funds,
//! withdrawals return to them, transfers move value between accounts.
//! Every mutating call is gated on the `Billing` permission, validates all
//! of its preconditions first, and preserves issuance conservation.

use crate::store::clone_bytes;
use crate::store::lemma_table_map_domain;
use crate::store::lemma_table_map_index;
use crate::pallet::Pallet;
use crate::types::Error;
use crate::types::Event;
use crate::types::Principal;
use crate::types::valid_address;
use vstd::prelude::*;

verus! {

/// The balance an account holds in a balance map: zero when absent.
pub open spec fn balance_in(m: Map<Seq<u8>, u128>, account: Seq<u8>) -> u128 {
    if m.contains_key(account) {
        m[account]
    } else {
        0
    }
}

/// Sum of the balances held by an entry sequence.
pub open spec fn sum_values(s: Seq<(Vec<u8>, u128)>) -> int
    decreases s.len(),
{
    if s.len() == 0 {
        0
    } else {
        sum_values(s.drop_last()) + s.last().1
    }
}

/// Balances are unsigned, so their sum is never negative.
pub proof fn lemma_sum_nonneg(s: Seq<(Vec<u8>, u128)>)
    ensures
        sum_values(s) >= 0,
    decreases s.len(),
{
    if s.len() > 0 {
        lemma_sum_nonneg(s.drop_last());
    }
}

/// Each single balance is bounded by the sum of all of them.
pub proof fn lemma_sum_entry_bound(s: Seq<(Vec<u8>, u128)>, i: int)
    requires
        0 <= i < s.len(),
    ensures
        s[i].1 <= sum_values(s),
    decreases s.len(),
{
    if i == s.len() - 1 {
        lemma_sum_nonneg(s.drop_last());
    } else {
        lemma_sum_entry_bound(s.drop_last(), i);
    }
}

/// Overwriting entry `i` changes the sum by the difference of the values.
pub proof fn lemma_sum_update(s: Seq<(Vec<u8>, u128)>, i: int, p: (Vec<u8>, u128))
    requires
        0 <= i < s.len(),
    ensures
        sum_values(s.update(i, p)) == sum_values(s) - s[i].1 + p.1,
    decreases s.len(),
{
    let su = s.update(i, p);
    if i == s.len() - 1 {
        assert(su.drop_last() =~= s.drop_last());
    } else {
        assert(su.drop_last() =~= s.drop_last().update(i, p));
        lemma_sum_update(s.drop_last(), i, p);
        assert(su.last() == s.last());
    }
}

/// Appending an entry adds its value to the sum.
pub proof fn lemma_sum_push(s: Seq<(Vec<u8>, u128)>, p: (Vec<u8>, u128))
    ensures
        sum_values(s.push(p)) == sum_values(s) + p.1,
{
    assert(s.push(p).drop_last() =~= s);
}

impl Pallet {
    /// An account balance never exceeds what the sum invariant allows:
    /// with well-formed state, balance plus locked funds stay within the
    /// total issuance.
    proof fn lemma_balance_within_issuance(&self, account: Seq<u8>)
        requires
            self.wf(),
        ensures
            self.spec_balance_of(account) + self.locked_funds <= self.total_issuance,
    {
        let s = self.balances.kvs();
        lemma_table_map_domain(s, account);
        if self.balances@.contains_key(account) {
            let i = choose|i: int| 0 <= i < s.len() && s[i].0@ == account;
            lemma_table_map_index(s, i);
            lemma_sum_entry_bound(s, i);
        } else {
            lemma_sum_nonneg(s);
        }
    }

    /// Allocate `value` of the locked funds to `account`.
    pub fn deposit(&mut self, sender: Principal, account: Vec<u8>, value: u128) -> (r: Result<
        Event,
        Error,
    >)
        requires
            old(self).wf(),
        ensures
            final(self).wf(),
            r is Err ==> *final(self) == *old(self),
            r == Err::<Event, Error>(Error::Unauthorized) <==> !old(
                self,
            ).spec_has_billing_permission(sender),
            r == Err::<Event, Error>(Error::InvalidArguments) <==> old(
                self,
            ).spec_has_billing_permission(sender) && !valid_address(account@),
            r == Err::<Event, Error>(Error::InsufficientIssuance) <==> old(
                self,
            ).spec_has_billing_permission(sender) && valid_address(account@) && old(
                self,
            ).locked_funds < value,
            r is Ok <==> old(self).spec_has_billing_permission(sender) && valid_address(account@)
                && value <= old(self).locked_funds,
            r is Ok ==> ({
                &&& final(self).balances@ == old(self).balances@.insert(
                    account@,
                    (old(self).spec_balance_of(account@) + value) as u128,
                )
                &&& final(self).locked_funds == old(self).locked_funds - value
                &&& final(self).key == old(self).key
                &&& final(self).total_issuance == old(self).total_issuance
                &&& final(self).total_file_count == old(self).total_file_count
                &&& final(self).total_file_size == old(self).total_file_size
                &&& final(self).node_urls == old(self).node_urls
                &&& final(self).file_permissions == old(self).file_permissions
                &&& final(self).billing_permissions == old(self).billing_permissions
                &&& final(self).gateways == old(self).gateways
                &&& r == Ok::<Event, Error>(Event::Deposit(account, value))
            }),
    {
        if !self.has_billing_permission(sender) {
            return Err(Error::Unauthorized);
        }
        if account.len() != 20 {
            return Err(Error::InvalidArguments);
        }
        if self.locked_funds < value {
            return Err(Error::InsufficientIssuance);
        }
        let current = self.balance_of(&account);
        proof {
            self.lemma_balance_within_issuance(account@);
        }
        let new_balance = current + value;
        let account_key = clone_bytes(&account);
        let ghost s0 = self.balances.kvs();
        let ghost contained = self.balances@.contains_key(account@);
        self.balances.insert(account_key, new_balance);
        proof {
            if contained {
                let i = choose|i: int|
                    0 <= i < s0.len() && s0[i].0@ == account_key@ && self.balances.kvs()
                        == s0.update(i, (account_key, new_balance));
                lemma_table_map_index(s0, i);
                lemma_sum_update(s0, i, (account_key, new_balance));
            } else {
                lemma_sum_push(s0, (account_key, new_balance));
            }
        }
        self.locked_funds = self.locked_funds - value;
        Ok(Event::Deposit(account, value))
    }

    /// Return `value` of `account`'s balance to the locked funds.
    pub fn withdraw(&mut self, sender: Principal, account: Vec<u8>, value: u128) -> (r: Result<
        Event,
        Error,
    >)
        requires
            old(self).wf(),
        ensures
            final(self).wf(),
            r is Err ==> *final(self) == *old(self),
            r == Err::<Event, Error>(Error::Unauthorized) <==> !old(
                self,
            ).spec_has_billing_permission(sender),
            r == Err::<Event, Error>(Error::InvalidArguments) <==> old(
                self,
            ).spec_has_billing_permission(sender) && !valid_address(account@),
            r == Err::<Event, Error>(Error::InsufficientFunds) <==> old(
                self,
            ).spec_has_billing_permission(sender) && valid_address(account@) && old(
                self,
            ).spec_balance_of(account@) < value,
            r is Ok <==> old(self).spec_has_billing_permission(sender) && valid_address(account@)
                && value <= old(self).spec_balance_of(account@),
            r is Ok ==> ({
                &&& final(self).balances@ == old(self).balances@.insert(
                    account@,
                    (old(self).spec_balance_of(account@) - value) as u128,
                )
                &&& final(self).locked_funds == old(self).locked_funds + value
                &&& final(self).key == old(self).key
                &&& final(self).total_issuance == old(self).total_issuance
                &&& final(self).total_file_count == old(self).total_file_count
                &&& final(self).total_file_size == old(self).total_file_size
                &&& final(self).node_urls == old(self).node_urls
                &&& final(self).file_permissions == old(self).file_permissions
                &&& final(self).billing_permissions == old(self).billing_permissions
                &&& final(self).gateways == old(self).gateways
                &&& r == Ok::<Event, Error>(Event::Withdraw(account, value))
            }),
    {
        if !self.has_billing_permission(sender) {
            return Err(Error::Unauthorized);
        }
        if account.len() != 20 {
            return Err(Error::InvalidArguments);
        }
        let current = self.balance_of(&account);
        if current < value {
            return Err(Error::InsufficientFunds);
        }
        proof {
            self.lemma_balance_within_issuance(account@);
        }
        let new_balance = current - value;
        let account_key = clone_bytes(&account);
        let ghost s0 = self.balances.kvs();
        let ghost contained = self.balances@.contains_key(account@);
        self.balances.insert(account_key, new_balance);
        proof {
            if contained {
                let i = choose|i: int|
                    0 <= i < s0.len() && s0[i].0@ == account_key@ && self.balances.kvs()
                        == s0.update(i, (account_key, new_balance));
                lemma_table_map_index(s0, i);
                lemma_sum_update(s0, i, (account_key, new_balance));
            } else {
                lemma_sum_push(s0, (account_key, new_balance));
            }
        }
        self.locked_funds = self.locked_funds + value;
        Ok(Event::Withdraw(account, value))
    }

    /// Move `value` from one account to another; the locked funds are
    /// untouched, so issuance is conserved by construction.
    pub fn transfer(
        &mut self,
        sender: Principal,
        from: Vec<u8>,
        to: Vec<u8>,
        value: u128,
    ) -> (r: Result<Event, Error>)
        requires
            old(self).wf(),
        ensures
            final(self).wf(),
            r is Err ==> *final(self) == *old(self),
            r == Err::<Event, Error>(Error::Unauthorized) <==> !old(
                self,
            ).spec_has_billing_permission(sender),
            r == Err::<Event, Error>(Error::InvalidArguments) <==> old(
                self,
            ).spec_has_billing_permission(sender) && (!valid_address(from@) || !valid_address(
                to@,
            )),
            r == Err::<Event, Error>(Error::InsufficientFunds) <==> old(
                self,
            ).spec_has_billing_permission(sender) && valid_address(from@) && valid_address(to@)
                && old(self).spec_balance_of(from@) < value,
            r is Ok <==> old(self).spec_has_billing_permission(sender) && valid_address(from@)
                && valid_address(to@) && value <= old(self).spec_balance_of(from@),
            r is Ok ==> ({
                let debited = old(self).balances@.insert(
                    from@,
                    (old(self).spec_balance_of(from@) - value) as u128,
                );
                &&& final(self).balances@ == debited.insert(
                    to@,
                    (balance_in(debited, to@) + value) as u128,
                )
                &&& final(self).locked_funds == old(self).locked_funds
                &&& final(self).key == old(self).key
                &&& final(self).total_issuance == old(self).total_issuance
                &&& final(self).total_file_count == old(self).total_file_count
                &&& final(self).total_file_size == old(self).total_file_size
                &&& final(self).node_urls == old(self).node_urls
                &&& final(self).file_permissions == old(self).file_permissions
                &&& final(self).billing_permissions == old(self).billing_permissions
                &&& final(self).gateways == old(self).gateways
                &&& r == Ok::<Event, Error>(Event::Transfer(from, to, value))
            }),
    {
        if !self.has_billing_permission(sender) {
            return Err(Error::Unauthorized);
        }
        if from.len() != 20 {
            return Err(Error::InvalidArguments);
        }
        if to.len() != 20 {
            return Err(Error::InvalidArguments);
        }
        let current_from = self.balance_of(&from);
        if current_from < value {
            return Err(Error::InsufficientFunds);
        }
        let new_from = current_from - value;
        let from_key = clone_bytes(&from);
        let ghost s0 = self.balances.kvs();
        let ghost contained_from = self.balances@.contains_key(from@);
        self.balances.insert(from_key, new_from);
        proof {
            if contained_from {
                let i = choose|i: int|
                    0 <= i < s0.len() && s0[i].0@ == from_key@ && self.balances.kvs() == s0.update(
                        i,
                        (from_key, new_from),
                    );
                lemma_table_map_index(s0, i);
                lemma_sum_update(s0, i, (from_key, new_from));
            } else {
                lemma_sum_push(s0, (from_key, new_from));
            }
        }
        let current_to = self.balance_of(&to);
        proof {
            let s1 = self.balances.kvs();
            lemma_table_map_domain(s1, to@);
            if self.balances@.contains_key(to@) {
                let i = choose|i: int| 0 <= i < s1.len() && s1[i].0@ == to@;
                lemma_table_map_index(s1, i);
                lemma_sum_entry_bound(s1, i);
            } else {
                lemma_sum_nonneg(s1);
            }
        }
        let new_to = current_to + value;
        let to_key = clone_bytes(&to);
        let ghost s1 = self.balances.kvs();
        let ghost contained_to = self.balances@.contains_key(to@);
        self.balances.insert(to_key, new_to);
        proof {
            if contained_to {
                let i = choose|i: int|
                    0 <= i < s1.len() && s1[i].0@ == to_key@ && self.balances.kvs() == s1.update(
                        i,
                        (to_key, new_to),
                    );
                lemma_table_map_index(s1, i);
                lemma_sum_update(s1, i, (to_key, new_to));
            } else {
                lemma_sum_push(s1, (to_key, new_to));
            }
        }
        Ok(Event::Transfer(from, to, value))
    }
}

} // verus!
