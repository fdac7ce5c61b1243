//! The asset catalog: validation of upload, download and delete requests
//! and the aggregate file counters. The counters only ever grow — delete
//! leaves them unchanged, a deliberately preserved behaviour of this core.
//! Each call is attributed to the acting file node, the sender's bound
//! `File` address (empty for an unbound admin).

use crate::pallet::Pallet;
use crate::store::clone_bytes;
use crate::types::Error;
use crate::types::Event;
use crate::types::Principal;
use crate::types::valid_address;
use crate::types::valid_hash;
use vstd::prelude::*;

verus! {

impl Pallet {
    /// All conditions under which an upload is accepted.
    pub open spec fn spec_upload_allowed(
        &self,
        sender: Principal,
        user_eth_address: Seq<u8>,
        file_name_hash: Seq<u8>,
        file_contents_hash: Seq<u8>,
        gateway_eth_address: Seq<u8>,
    ) -> bool {
        &&& self.spec_has_file_permission(sender)
        &&& valid_address(user_eth_address)
        &&& valid_address(gateway_eth_address)
        &&& valid_hash(file_contents_hash)
        &&& valid_hash(file_name_hash)
    }

    /// Register an upload: count it, add its size, and attribute it to
    /// the acting file node.
    pub fn upload(
        &mut self,
        sender: Principal,
        user_eth_address: Vec<u8>,
        file_name_hash: Vec<u8>,
        file_storage_class: u8,
        file_size_bytes: u128,
        file_contents_hash: Vec<u8>,
        gateway_eth_address: Vec<u8>,
    ) -> (r: Result<Event, Error>)
        requires
            old(self).wf(),
            old(self).spec_upload_allowed(
                sender,
                user_eth_address@,
                file_name_hash@,
                file_contents_hash@,
                gateway_eth_address@,
            ) ==> old(self).total_file_count < u128::MAX && old(self).total_file_size
                + file_size_bytes <= u128::MAX,
        ensures
            final(self).wf(),
            r is Err ==> *final(self) == *old(self),
            r == Err::<Event, Error>(Error::Unauthorized) <==> !old(
                self,
            ).spec_has_file_permission(sender),
            r == Err::<Event, Error>(Error::InvalidArguments) <==> old(
                self,
            ).spec_has_file_permission(sender) && !(valid_address(user_eth_address@)
                && valid_address(gateway_eth_address@) && valid_hash(file_contents_hash@)
                && valid_hash(file_name_hash@)),
            r is Ok <==> old(self).spec_upload_allowed(
                sender,
                user_eth_address@,
                file_name_hash@,
                file_contents_hash@,
                gateway_eth_address@,
            ),
            r is Ok ==> ({
                &&& final(self).total_file_count == old(self).total_file_count + 1
                &&& final(self).total_file_size == old(self).total_file_size + file_size_bytes
                &&& final(self).key == old(self).key
                &&& final(self).total_issuance == old(self).total_issuance
                &&& final(self).locked_funds == old(self).locked_funds
                &&& final(self).balances == old(self).balances
                &&& final(self).node_urls == old(self).node_urls
                &&& final(self).file_permissions == old(self).file_permissions
                &&& final(self).billing_permissions == old(self).billing_permissions
                &&& final(self).gateways == old(self).gateways
                &&& r matches Ok(e) && e matches Event::Upload(u, n, s, c, g, f, sc)
                    && u == user_eth_address && n == file_name_hash && s == file_size_bytes
                    && c == file_contents_hash && g == gateway_eth_address && f@ == old(
                    self,
                ).spec_file_node_of(sender) && sc == file_storage_class
            }),
    {
        let has_permission = self.has_file_permission(sender);
        let filenode_eth_address = match self.resolve_file_address(sender) {
            Some(a) => clone_bytes(a),
            None => Vec::new(),
        };
        if !has_permission {
            return Err(Error::Unauthorized);
        }
        if user_eth_address.len() != 20 {
            return Err(Error::InvalidArguments);
        }
        if gateway_eth_address.len() != 20 {
            return Err(Error::InvalidArguments);
        }
        if file_contents_hash.len() != 32 {
            return Err(Error::InvalidArguments);
        }
        if file_name_hash.len() != 32 {
            return Err(Error::InvalidArguments);
        }
        self.total_file_count = self.total_file_count + 1;
        self.total_file_size = self.total_file_size + file_size_bytes;
        Ok(
            Event::Upload(
                user_eth_address,
                file_name_hash,
                file_size_bytes,
                file_contents_hash,
                gateway_eth_address,
                filenode_eth_address,
                file_storage_class,
            ),
        )
    }

    /// Validate a download request; nothing in the state changes.
    pub fn download(
        &mut self,
        sender: Principal,
        user_eth_address: Vec<u8>,
        file_name_hash: Vec<u8>,
        file_size_bytes: u128,
        file_contents_hash: Vec<u8>,
        gateway_eth_address: Vec<u8>,
    ) -> (r: Result<Event, Error>)
        requires
            old(self).wf(),
        ensures
            final(self).wf(),
            *final(self) == *old(self),
            r == Err::<Event, Error>(Error::Unauthorized) <==> !old(
                self,
            ).spec_has_file_permission(sender),
            r == Err::<Event, Error>(Error::InvalidArguments) <==> old(
                self,
            ).spec_has_file_permission(sender) && !(valid_address(user_eth_address@)
                && valid_address(gateway_eth_address@) && valid_hash(file_contents_hash@)
                && valid_hash(file_name_hash@)),
            r is Ok <==> old(self).spec_upload_allowed(
                sender,
                user_eth_address@,
                file_name_hash@,
                file_contents_hash@,
                gateway_eth_address@,
            ),
            r is Ok ==> ({
                &&& r matches Ok(e) && e matches Event::Download(u, n, s, c, g, f)
                    && u == user_eth_address && n == file_name_hash && s == file_size_bytes
                    && c == file_contents_hash && g == gateway_eth_address && f@ == old(
                    self,
                ).spec_file_node_of(sender)
            }),
    {
        let has_permission = self.has_file_permission(sender);
        let filenode_eth_address = match self.resolve_file_address(sender) {
            Some(a) => clone_bytes(a),
            None => Vec::new(),
        };
        if !has_permission {
            return Err(Error::Unauthorized);
        }
        if user_eth_address.len() != 20 {
            return Err(Error::InvalidArguments);
        }
        if gateway_eth_address.len() != 20 {
            return Err(Error::InvalidArguments);
        }
        if file_contents_hash.len() != 32 {
            return Err(Error::InvalidArguments);
        }
        if file_name_hash.len() != 32 {
            return Err(Error::InvalidArguments);
        }
        Ok(
            Event::Download(
                user_eth_address,
                file_name_hash,
                file_size_bytes,
                file_contents_hash,
                gateway_eth_address,
                filenode_eth_address,
            ),
        )
    }

    /// Validate a delete request; the counters deliberately stay as they
    /// are.
    pub fn delete(
        &mut self,
        sender: Principal,
        user_eth_address: Vec<u8>,
        file_name_hash: Vec<u8>,
    ) -> (r: Result<Event, Error>)
        requires
            old(self).wf(),
        ensures
            final(self).wf(),
            *final(self) == *old(self),
            r == Err::<Event, Error>(Error::Unauthorized) <==> !old(
                self,
            ).spec_has_file_permission(sender),
            r == Err::<Event, Error>(Error::InvalidArguments) <==> old(
                self,
            ).spec_has_file_permission(sender) && !(valid_address(user_eth_address@)
                && valid_hash(file_name_hash@)),
            r is Ok <==> old(self).spec_has_file_permission(sender) && valid_address(
                user_eth_address@,
            ) && valid_hash(file_name_hash@),
            r is Ok ==> ({
                &&& r matches Ok(e) && e matches Event::Delete(u, n, f) && u == user_eth_address
                    && n == file_name_hash && f@ == old(self).spec_file_node_of(sender)
            }),
    {
        let has_permission = self.has_file_permission(sender);
        if !has_permission {
            return Err(Error::Unauthorized);
        }
        let filenode_eth_address = match self.resolve_file_address(sender) {
            Some(a) => clone_bytes(a),
            None => Vec::new(),
        };
        if user_eth_address.len() != 20 {
            return Err(Error::InvalidArguments);
        }
        if file_name_hash.len() != 32 {
            return Err(Error::InvalidArguments);
        }
        Ok(Event::Delete(user_eth_address, file_name_hash, filenode_eth_address))
    }
}

} // verus!
