//! Grant and revoke of the two delegation roles. Both are admin-only:
//! only the genesis key may change who acts on behalf of an external
//! address. A grant also records the delegate's service URL.

use crate::pallet::Pallet;
use crate::registry::bind_forward;
use crate::registry::bind_reverse;
use crate::store::clone_bytes;
use crate::types::Error;
use crate::types::Event;
use crate::types::Principal;
use crate::types::valid_address;
use vstd::prelude::*;

verus! {

impl Pallet {
    /// Bind `eth_address` to `account_id` for the `File` role and record
    /// the node's service URL.
    pub fn grant_file_permission(
        &mut self,
        sender: Principal,
        eth_address: Vec<u8>,
        account_id: Principal,
        node_url: Vec<u8>,
    ) -> (r: Result<Event, Error>)
        requires
            old(self).wf(),
        ensures
            final(self).wf(),
            r is Err ==> *final(self) == *old(self),
            r == Err::<Event, Error>(Error::Unauthorized) <==> sender != old(self).key,
            r == Err::<Event, Error>(Error::InvalidArguments) <==> sender == old(self).key
                && !valid_address(eth_address@),
            r is Ok <==> sender == old(self).key && valid_address(eth_address@),
            r is Ok ==> ({
                &&& final(self).file_permissions.forward() == bind_forward(
                    old(self).file_permissions.forward(),
                    eth_address@,
                    account_id,
                )
                &&& final(self).file_permissions.reverse() == bind_reverse(
                    old(self).file_permissions.forward(),
                    old(self).file_permissions.reverse(),
                    eth_address@,
                    account_id,
                )
                &&& final(self).node_urls@ == old(self).node_urls@.insert(
                    eth_address@,
                    node_url@,
                )
                &&& final(self).key == old(self).key
                &&& final(self).total_issuance == old(self).total_issuance
                &&& final(self).locked_funds == old(self).locked_funds
                &&& final(self).balances == old(self).balances
                &&& final(self).total_file_count == old(self).total_file_count
                &&& final(self).total_file_size == old(self).total_file_size
                &&& final(self).billing_permissions == old(self).billing_permissions
                &&& final(self).gateways == old(self).gateways
                &&& r == Ok::<Event, Error>(Event::FilePermissionGranted(
                    eth_address,
                    account_id,
                    node_url,
                ))
            }),
    {
        if sender != self.key {
            return Err(Error::Unauthorized);
        }
        if eth_address.len() != 20 {
            return Err(Error::InvalidArguments);
        }
        let bind_key = clone_bytes(&eth_address);
        let url_key = clone_bytes(&eth_address);
        let url_value = clone_bytes(&node_url);
        self.file_permissions.bind(bind_key, account_id);
        self.node_urls.insert(url_key, url_value);
        Ok(Event::FilePermissionGranted(eth_address, account_id, node_url))
    }

    /// Bind `eth_address` to `account_id` for the `Billing` role and
    /// record the node's service URL.
    pub fn grant_billing_permission(
        &mut self,
        sender: Principal,
        eth_address: Vec<u8>,
        account_id: Principal,
        node_url: Vec<u8>,
    ) -> (r: Result<Event, Error>)
        requires
            old(self).wf(),
        ensures
            final(self).wf(),
            r is Err ==> *final(self) == *old(self),
            r == Err::<Event, Error>(Error::Unauthorized) <==> sender != old(self).key,
            r == Err::<Event, Error>(Error::InvalidArguments) <==> sender == old(self).key
                && !valid_address(eth_address@),
            r is Ok <==> sender == old(self).key && valid_address(eth_address@),
            r is Ok ==> ({
                &&& final(self).billing_permissions.forward() == bind_forward(
                    old(self).billing_permissions.forward(),
                    eth_address@,
                    account_id,
                )
                &&& final(self).billing_permissions.reverse() == bind_reverse(
                    old(self).billing_permissions.forward(),
                    old(self).billing_permissions.reverse(),
                    eth_address@,
                    account_id,
                )
                &&& final(self).node_urls@ == old(self).node_urls@.insert(
                    eth_address@,
                    node_url@,
                )
                &&& final(self).key == old(self).key
                &&& final(self).total_issuance == old(self).total_issuance
                &&& final(self).locked_funds == old(self).locked_funds
                &&& final(self).balances == old(self).balances
                &&& final(self).total_file_count == old(self).total_file_count
                &&& final(self).total_file_size == old(self).total_file_size
                &&& final(self).file_permissions == old(self).file_permissions
                &&& final(self).gateways == old(self).gateways
                &&& r == Ok::<Event, Error>(Event::BillingPermissionGranted(
                    eth_address,
                    account_id,
                    node_url,
                ))
            }),
    {
        if sender != self.key {
            return Err(Error::Unauthorized);
        }
        if eth_address.len() != 20 {
            return Err(Error::InvalidArguments);
        }
        let bind_key = clone_bytes(&eth_address);
        let url_key = clone_bytes(&eth_address);
        let url_value = clone_bytes(&node_url);
        self.billing_permissions.bind(bind_key, account_id);
        self.node_urls.insert(url_key, url_value);
        Ok(Event::BillingPermissionGranted(eth_address, account_id, node_url))
    }

    /// Remove the `File` binding of `eth_address` in both directions.
    pub fn revoke_file_permission(&mut self, sender: Principal, eth_address: Vec<u8>) -> (r: Result<
        Event,
        Error,
    >)
        requires
            old(self).wf(),
        ensures
            final(self).wf(),
            r is Err ==> *final(self) == *old(self),
            r == Err::<Event, Error>(Error::Unauthorized) <==> sender != old(self).key,
            r == Err::<Event, Error>(Error::InvalidArguments) <==> sender == old(self).key && (
            !valid_address(eth_address@) || !old(self).file_permissions.forward().contains_key(
                eth_address@,
            )),
            r is Ok <==> sender == old(self).key && valid_address(eth_address@) && old(
                self,
            ).file_permissions.forward().contains_key(eth_address@),
            r is Ok ==> ({
                let principal = old(self).file_permissions.forward()[eth_address@];
                &&& final(self).file_permissions.forward() == old(
                    self,
                ).file_permissions.forward().remove(eth_address@)
                &&& final(self).file_permissions.reverse() == old(
                    self,
                ).file_permissions.reverse().remove(principal)
                &&& final(self).key == old(self).key
                &&& final(self).total_issuance == old(self).total_issuance
                &&& final(self).locked_funds == old(self).locked_funds
                &&& final(self).balances == old(self).balances
                &&& final(self).total_file_count == old(self).total_file_count
                &&& final(self).total_file_size == old(self).total_file_size
                &&& final(self).node_urls == old(self).node_urls
                &&& final(self).billing_permissions == old(self).billing_permissions
                &&& final(self).gateways == old(self).gateways
                &&& r == Ok::<Event, Error>(Event::FilePermissionRevoked(eth_address, principal))
            }),
    {
        if sender != self.key {
            return Err(Error::Unauthorized);
        }
        if eth_address.len() != 20 {
            return Err(Error::InvalidArguments);
        }
        if !self.file_permissions.contains_address(&eth_address) {
            return Err(Error::InvalidArguments);
        }
        match self.file_permissions.unbind(&eth_address) {
            Some(principal) => Ok(Event::FilePermissionRevoked(eth_address, principal)),
            None => Err(Error::InvalidArguments),
        }
    }

    /// Remove the `Billing` binding of `eth_address` in both directions.
    pub fn revoke_billing_permission(
        &mut self,
        sender: Principal,
        eth_address: Vec<u8>,
    ) -> (r: Result<Event, Error>)
        requires
            old(self).wf(),
        ensures
            final(self).wf(),
            r is Err ==> *final(self) == *old(self),
            r == Err::<Event, Error>(Error::Unauthorized) <==> sender != old(self).key,
            r == Err::<Event, Error>(Error::InvalidArguments) <==> sender == old(self).key && (
            !valid_address(eth_address@) || !old(self).billing_permissions.forward().contains_key(
                eth_address@,
            )),
            r is Ok <==> sender == old(self).key && valid_address(eth_address@) && old(
                self,
            ).billing_permissions.forward().contains_key(eth_address@),
            r is Ok ==> ({
                let principal = old(self).billing_permissions.forward()[eth_address@];
                &&& final(self).billing_permissions.forward() == old(
                    self,
                ).billing_permissions.forward().remove(eth_address@)
                &&& final(self).billing_permissions.reverse() == old(
                    self,
                ).billing_permissions.reverse().remove(principal)
                &&& final(self).key == old(self).key
                &&& final(self).total_issuance == old(self).total_issuance
                &&& final(self).locked_funds == old(self).locked_funds
                &&& final(self).balances == old(self).balances
                &&& final(self).total_file_count == old(self).total_file_count
                &&& final(self).total_file_size == old(self).total_file_size
                &&& final(self).node_urls == old(self).node_urls
                &&& final(self).file_permissions == old(self).file_permissions
                &&& final(self).gateways == old(self).gateways
                &&& r == Ok::<Event, Error>(Event::BillingPermissionRevoked(
                    eth_address,
                    principal,
                ))
            }),
    {
        if sender != self.key {
            return Err(Error::Unauthorized);
        }
        if eth_address.len() != 20 {
            return Err(Error::InvalidArguments);
        }
        if !self.billing_permissions.contains_address(&eth_address) {
            return Err(Error::InvalidArguments);
        }
        match self.billing_permissions.unbind(&eth_address) {
            Some(principal) => Ok(Event::BillingPermissionRevoked(eth_address, principal)),
            None => Err(Error::InvalidArguments),
        }
    }
}

} // verus!
