//! Plain data carried through the ledger: identities, addresses, errors,
//! gateway records and the event records that operations emit.

use crate::store::ViewKey;
use vstd::prelude::*;

verus! {

/// Opaque, comparable identity of an authenticated caller, supplied by the
/// host's authenticator. Nothing beyond equality is assumed of it.
#[derive(Clone, Copy, PartialEq, Eq, Structural, Debug)]
pub struct Principal {
    pub id: u64,
}

impl View for Principal {
    type V = Principal;

    open spec fn view(&self) -> Principal {
        *self
    }
}

impl ViewKey for Principal {
    fn view_eq(&self, other: &Self) -> (r: bool) {
        self.id == other.id
    }
}

/// Terminal outcome of a rejected call. Every error is detected before any
/// mutation, so a failing operation leaves the state unchanged.
#[derive(Clone, Copy, PartialEq, Eq, Structural, Debug)]
pub enum Error {
    /// A fixed-length field has the wrong length, or a revoke target is
    /// not bound.
    InvalidArguments,
    /// The caller lacks the required admin or role permission.
    Unauthorized,
    /// A deposit would draw more than the currently locked funds.
    InsufficientIssuance,
    /// A balance-decreasing operation would drive a balance negative.
    InsufficientFunds,
}

/// An external address is the 20-byte identifier of an off-system actor.
pub open spec fn valid_address(a: Seq<u8>) -> bool {
    a.len() == 20
}

/// Content and name hashes are opaque 32-byte identifiers.
pub open spec fn valid_hash(h: Seq<u8>) -> bool {
    h.len() == 32
}

/// A registered storage gateway node, optionally linked to the seed
/// gateway it was bootstrapped from. Seed references are not validated,
/// so the directory forms an (possibly dangling) forest.
#[derive(Clone, Debug, PartialEq)]
pub struct Gateway {
    pub address: Vec<u8>,
    pub seed_address: Option<Vec<u8>>,
    pub storage: u8,
}

/// Mathematical image of a [`Gateway`] record.
pub struct GatewayView {
    pub address: Seq<u8>,
    pub seed_address: Option<Seq<u8>>,
    pub storage: u8,
}

/// View of an optional byte string, element by element.
pub open spec fn option_bytes_view(o: Option<Vec<u8>>) -> Option<Seq<u8>> {
    match o {
        Some(a) => Some(a@),
        None => None,
    }
}

impl View for Gateway {
    type V = GatewayView;

    open spec fn view(&self) -> GatewayView {
        GatewayView {
            address: self.address@,
            seed_address: option_bytes_view(self.seed_address),
            storage: self.storage,
        }
    }
}

/// Record of one committed operation, forwarded by the dispatcher to the
/// host's event sink. Field order is significant for log compatibility.
#[derive(Clone, Debug, PartialEq)]
pub enum Event {
    /// user address, file name hash, file size in bytes, file contents
    /// hash, gateway address, acting file-node address, storage class
    Upload(Vec<u8>, Vec<u8>, u128, Vec<u8>, Vec<u8>, Vec<u8>, u8),
    /// user address, file name hash, file size in bytes, file contents
    /// hash, gateway address, acting file-node address
    Download(Vec<u8>, Vec<u8>, u128, Vec<u8>, Vec<u8>, Vec<u8>),
    /// user address, file name hash, acting file-node address
    Delete(Vec<u8>, Vec<u8>, Vec<u8>),
    /// account address, deposited amount
    Deposit(Vec<u8>, u128),
    /// account address, withdrawn amount
    Withdraw(Vec<u8>, u128),
    /// source address, destination address, transferred amount
    Transfer(Vec<u8>, Vec<u8>, u128),
    /// bound address, bound principal, service URL
    FilePermissionGranted(Vec<u8>, Principal, Vec<u8>),
    /// unbound address, previously bound principal
    FilePermissionRevoked(Vec<u8>, Principal),
    /// bound address, bound principal, service URL
    BillingPermissionGranted(Vec<u8>, Principal, Vec<u8>),
    /// unbound address, previously bound principal
    BillingPermissionRevoked(Vec<u8>, Principal),
    /// gateway address, optional seed gateway address, storage class,
    /// service URL
    GatewayNodeRegistered(Vec<u8>, Option<Vec<u8>>, u8, Vec<u8>),
}

} // verus!
