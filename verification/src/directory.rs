//! The gateway directory: admin-only registration of storage gateway
//! nodes. A registration upserts the gateway record and its service URL.
//! Seed references are accepted unvalidated (they may dangle or form a
//! cycle), a deliberately preserved behaviour of this core.

use crate::pallet::Pallet;
use crate::store::clone_bytes;
use crate::types::Error;
use crate::types::Event;
use crate::types::Gateway;
use crate::types::GatewayView;
use crate::types::Principal;
use crate::types::option_bytes_view;
use crate::types::valid_address;
use vstd::prelude::*;

verus! {

impl Pallet {
    /// Upsert a gateway node record and its service URL.
    pub fn register_gateway_node(
        &mut self,
        sender: Principal,
        eth_address: Vec<u8>,
        seed_eth_address: Option<Vec<u8>>,
        storage: u8,
        node_url: Vec<u8>,
    ) -> (r: Result<Event, Error>)
        requires
            old(self).wf(),
        ensures
            final(self).wf(),
            r is Err ==> *final(self) == *old(self),
            r == Err::<Event, Error>(Error::Unauthorized) <==> sender != old(self).key,
            r == Err::<Event, Error>(Error::InvalidArguments) <==> sender == old(self).key && !(
            valid_address(eth_address@) && (seed_eth_address matches Some(a) ==> valid_address(
                a@,
            ))),
            r is Ok <==> sender == old(self).key && valid_address(eth_address@) && (
            seed_eth_address matches Some(a) ==> valid_address(a@)),
            r is Ok ==> ({
                &&& final(self).gateways@ == old(self).gateways@.insert(
                    eth_address@,
                    GatewayView {
                        address: eth_address@,
                        seed_address: option_bytes_view(seed_eth_address),
                        storage: storage,
                    },
                )
                &&& final(self).node_urls@ == old(self).node_urls@.insert(
                    eth_address@,
                    node_url@,
                )
                &&& final(self).key == old(self).key
                &&& final(self).total_issuance == old(self).total_issuance
                &&& final(self).locked_funds == old(self).locked_funds
                &&& final(self).balances == old(self).balances
                &&& final(self).total_file_count == old(self).total_file_count
                &&& final(self).total_file_size == old(self).total_file_size
                &&& final(self).file_permissions == old(self).file_permissions
                &&& final(self).billing_permissions == old(self).billing_permissions
                &&& r == Ok::<Event, Error>(Event::GatewayNodeRegistered(
                    eth_address,
                    seed_eth_address,
                    storage,
                    node_url,
                ))
            }),
    {
        if sender != self.key {
            return Err(Error::Unauthorized);
        }
        if eth_address.len() != 20 {
            return Err(Error::InvalidArguments);
        }
        let seed_copy = match &seed_eth_address {
            Some(a) => {
                if a.len() != 20 {
                    return Err(Error::InvalidArguments);
                }
                Some(clone_bytes(a))
            },
            None => None,
        };
        let gateway = Gateway {
            address: clone_bytes(&eth_address),
            seed_address: seed_copy,
            storage: storage,
        };
        self.gateways.insert(clone_bytes(&eth_address), gateway);
        self.node_urls.insert(clone_bytes(&eth_address), clone_bytes(&node_url));
        Ok(Event::GatewayNodeRegistered(eth_address, seed_eth_address, storage, node_url))
    }
}

} // verus!
