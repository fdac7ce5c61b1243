//! The process-wide ledger state and its genesis construction.
//!
//! All entities live in one explicit state struct; the host persists it
//! and applies the operations defined across the sibling modules one at a
//! time. Well-formedness ties the whole state together, in particular the
//! issuance conservation law: the total issuance fixed at genesis always
//! equals the locked funds plus the sum of all account balances.

use crate::ledger::balance_in;
use crate::ledger::sum_values;
use crate::registry::PermissionRegistry;
use crate::store::Table;
use crate::types::Gateway;
use crate::types::Principal;
use vstd::prelude::*;

verus! {

/// The complete durable state of the core.
pub struct Pallet {
    /// The single genesis-configured admin principal; it bypasses every
    /// per-role permission check and never changes after genesis.
    pub key: Principal,
    /// Number of uploads accepted so far; never decreased.
    pub total_file_count: u128,
    /// Total bytes of the uploads accepted so far; never decreased.
    pub total_file_size: u128,
    /// Issuance fixed at genesis.
    pub total_issuance: u128,
    /// Issuance not yet allocated to any account balance.
    pub locked_funds: u128,
    /// Custodial balance per external address; an absent address holds
    /// zero.
    pub balances: Table<Vec<u8>, u128>,
    /// Service URL per node address, written by grants and gateway
    /// registrations.
    pub node_urls: Table<Vec<u8>, Vec<u8>>,
    /// Delegations for the `File` role.
    pub file_permissions: PermissionRegistry,
    /// Delegations for the `Billing` role.
    pub billing_permissions: PermissionRegistry,
    /// Registered gateway nodes by address.
    pub gateways: Table<Vec<u8>, Gateway>,
}

impl Pallet {
    /// Issuance conservation: the total issuance equals the locked funds
    /// plus the sum of all account balances, in every reachable state.
    pub open spec fn issuance_invariant(&self) -> bool {
        self.total_issuance == self.locked_funds + sum_values(self.balances.kvs())
    }

    pub open spec fn wf(&self) -> bool {
        &&& self.balances.wf()
        &&& self.node_urls.wf()
        &&& self.file_permissions.wf()
        &&& self.billing_permissions.wf()
        &&& self.gateways.wf()
        &&& self.issuance_invariant()
    }

    /// The balance of an account, zero when the account is unseen.
    pub open spec fn spec_balance_of(&self, account: Seq<u8>) -> u128 {
        balance_in(self.balances@, account)
    }

    /// The admin, or any principal with a reverse `File` binding, may act
    /// on the file catalog.
    pub open spec fn spec_has_file_permission(&self, sender: Principal) -> bool {
        sender == self.key || self.file_permissions.reverse().contains_key(sender)
    }

    /// The admin, or any principal with a reverse `Billing` binding, may
    /// move funds.
    pub open spec fn spec_has_billing_permission(&self, sender: Principal) -> bool {
        sender == self.key || self.billing_permissions.reverse().contains_key(sender)
    }

    /// The address attributed to the acting file node of a catalog call:
    /// the sender's bound `File` address, or empty when none is bound.
    pub open spec fn spec_file_node_of(&self, sender: Principal) -> Seq<u8> {
        if self.file_permissions.reverse().contains_key(sender) {
            self.file_permissions.reverse()[sender]
        } else {
            Seq::empty()
        }
    }

    pub fn key(&self) -> (r: Principal)
        ensures
            r == self.key,
    {
        self.key
    }

    pub fn total_file_count(&self) -> (r: u128)
        ensures
            r == self.total_file_count,
    {
        self.total_file_count
    }

    pub fn total_file_size(&self) -> (r: u128)
        ensures
            r == self.total_file_size,
    {
        self.total_file_size
    }

    pub fn total_issuance(&self) -> (r: u128)
        ensures
            r == self.total_issuance,
    {
        self.total_issuance
    }

    pub fn locked_funds(&self) -> (r: u128)
        ensures
            r == self.locked_funds,
    {
        self.locked_funds
    }

    pub fn balance_of(&self, account: &Vec<u8>) -> (r: u128)
        requires
            self.balances.wf(),
        ensures
            r == self.spec_balance_of(account@),
    {
        match self.balances.get(account) {
            Some(b) => *b,
            None => 0,
        }
    }

    pub fn has_file_permission(&self, sender: Principal) -> (r: bool)
        ensures
            r == self.spec_has_file_permission(sender),
    {
        sender == self.key || self.file_permissions.contains_principal(sender)
    }

    pub fn has_billing_permission(&self, sender: Principal) -> (r: bool)
        ensures
            r == self.spec_has_billing_permission(sender),
    {
        sender == self.key || self.billing_permissions.contains_principal(sender)
    }

    /// The gateway record registered under `address`, if any.
    pub fn gateway_of(&self, address: &Vec<u8>) -> (r: Option<&Gateway>)
        requires
            self.gateways.wf(),
        ensures
            r is Some <==> self.gateways@.contains_key(address@),
            r matches Some(g) ==> g@ == self.gateways@[address@],
    {
        self.gateways.get(address)
    }

    /// The service URL recorded for a node address, if any.
    pub fn node_url_of(&self, address: &Vec<u8>) -> (r: Option<&Vec<u8>>)
        requires
            self.node_urls.wf(),
        ensures
            r is Some <==> self.node_urls@.contains_key(address@),
            r matches Some(u) ==> u@ == self.node_urls@[address@],
    {
        self.node_urls.get(address)
    }

    /// The sender's bound `File` address, used to attribute catalog calls.
    pub fn resolve_file_address(&self, sender: Principal) -> (r: Option<&Vec<u8>>)
        requires
            self.wf(),
        ensures
            r is Some <==> self.file_permissions.reverse().contains_key(sender),
            r matches Some(a) ==> a@ == self.file_permissions.reverse()[sender],
    {
        self.file_permissions.resolve_address(sender)
    }
}

/// Genesis parameters, supplied once at process start by the host's
/// genesis loader.
pub struct GenesisConfig {
    pub key: Principal,
    pub total_issuance: u128,
}

impl Default for GenesisConfig {
    fn default() -> (r: Self)
        ensures
            r.key == (Principal { id: 0 }),
            r.total_issuance == 0,
    {
        GenesisConfig { key: Principal { id: 0 }, total_issuance: 0 }
    }
}

impl GenesisConfig {
    /// The initial state: the admin key installed, the whole issuance
    /// locked, all counters zero and all maps empty.
    pub fn build(&self) -> (p: Pallet)
        ensures
            p.wf(),
            p.key == self.key,
            p.total_issuance == self.total_issuance,
            p.locked_funds == self.total_issuance,
            p.total_file_count == 0,
            p.total_file_size == 0,
            p.balances@ == Map::<Seq<u8>, u128>::empty(),
            p.node_urls@ == Map::<Seq<u8>, Seq<u8>>::empty(),
            p.file_permissions.forward() == Map::<Seq<u8>, Principal>::empty(),
            p.file_permissions.reverse() == Map::<Principal, Seq<u8>>::empty(),
            p.billing_permissions.forward() == Map::<Seq<u8>, Principal>::empty(),
            p.billing_permissions.reverse() == Map::<Principal, Seq<u8>>::empty(),
            p.gateways@ == Map::<Seq<u8>, crate::types::GatewayView>::empty(),
    {
        let p = Pallet {
            key: self.key,
            total_file_count: 0,
            total_file_size: 0,
            total_issuance: self.total_issuance,
            locked_funds: self.total_issuance,
            balances: Table::new(),
            node_urls: Table::new(),
            file_permissions: PermissionRegistry::new(),
            billing_permissions: PermissionRegistry::new(),
            gateways: Table::new(),
        };
        proof {
            assert(sum_values(p.balances.kvs()) == 0);
        }
        p
    }
}

} // verus!
