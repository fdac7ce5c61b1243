//! Bidirectional permission registry: for one delegation role, a pairing
//! between external addresses and principals, kept in a forward table
//! (address to principal) and a reverse table (principal to address), with
//! the service URL directory maintained separately.
//!
//! Granting an address that is already bound first detaches the prior
//! principal's reverse binding, then installs the new pair. The registry
//! does not sweep a principal's other forward bindings, so only the
//! reverse-to-forward direction of the inversion is an invariant of all
//! reachable states; see [`lemma_bind_preserves_mutual_inverse`] for the
//! states from which a grant keeps the full bijection.

use crate::store::clone_bytes;
use crate::store::Table;
use crate::types::Principal;
use vstd::prelude::*;

verus! {

/// Forward image of one grant: `address` now maps to `principal`.
pub open spec fn bind_forward(
    fwd: Map<Seq<u8>, Principal>,
    address: Seq<u8>,
    principal: Principal,
) -> Map<Seq<u8>, Principal> {
    fwd.insert(address, principal)
}

/// Reverse image of one grant: the prior holder of `address`, if any,
/// loses its reverse binding, then `principal -> address` is installed.
pub open spec fn bind_reverse(
    fwd: Map<Seq<u8>, Principal>,
    rev: Map<Principal, Seq<u8>>,
    address: Seq<u8>,
    principal: Principal,
) -> Map<Principal, Seq<u8>> {
    if fwd.contains_key(address) {
        rev.remove(fwd[address]).insert(principal, address)
    } else {
        rev.insert(principal, address)
    }
}

/// Every reverse binding points back: a principal bound to an address is
/// the principal that address maps to.
pub open spec fn reverse_points_back(
    fwd: Map<Seq<u8>, Principal>,
    rev: Map<Principal, Seq<u8>>,
) -> bool {
    forall|p: Principal| #[trigger]
        rev.contains_key(p) ==> fwd.contains_key(rev[p]) && fwd[rev[p]] == p
}

/// Full mutual inversion of the two maps over their bound keys.
pub open spec fn mutual_inverse(
    fwd: Map<Seq<u8>, Principal>,
    rev: Map<Principal, Seq<u8>>,
) -> bool {
    &&& reverse_points_back(fwd, rev)
    &&& forall|a: Seq<u8>| #[trigger]
        fwd.contains_key(a) ==> rev.contains_key(fwd[a]) && rev[fwd[a]] == a
}

/// The address-principal pairing of one delegation role.
pub struct PermissionRegistry {
    pub by_address: Table<Vec<u8>, Principal>,
    pub by_principal: Table<Principal, Vec<u8>>,
}

impl PermissionRegistry {
    /// The map from bound addresses to their principals.
    pub open spec fn forward(&self) -> Map<Seq<u8>, Principal> {
        self.by_address@
    }

    /// The map from bound principals to their addresses.
    pub open spec fn reverse(&self) -> Map<Principal, Seq<u8>> {
        self.by_principal@
    }

    pub open spec fn wf(&self) -> bool {
        &&& self.by_address.wf()
        &&& self.by_principal.wf()
        &&& reverse_points_back(self.forward(), self.reverse())
    }

    pub fn new() -> (r: Self)
        ensures
            r.wf(),
            r.forward() == Map::<Seq<u8>, Principal>::empty(),
            r.reverse() == Map::<Principal, Seq<u8>>::empty(),
    {
        PermissionRegistry { by_address: Table::new(), by_principal: Table::new() }
    }

    pub fn contains_address(&self, address: &Vec<u8>) -> (r: bool)
        ensures
            r == self.forward().contains_key(address@),
    {
        self.by_address.contains_key(address)
    }

    pub fn contains_principal(&self, principal: Principal) -> (r: bool)
        ensures
            r == self.reverse().contains_key(principal),
    {
        self.by_principal.contains_key(&principal)
    }

    pub fn lookup_principal(&self, address: &Vec<u8>) -> (r: Option<Principal>)
        requires
            self.wf(),
        ensures
            r is Some <==> self.forward().contains_key(address@),
            r matches Some(p) ==> p == self.forward()[address@],
    {
        match self.by_address.get(address) {
            Some(p) => Some(*p),
            None => None,
        }
    }

    pub fn resolve_address(&self, principal: Principal) -> (r: Option<&Vec<u8>>)
        requires
            self.wf(),
        ensures
            r is Some <==> self.reverse().contains_key(principal),
            r matches Some(a) ==> a@ == self.reverse()[principal],
    {
        self.by_principal.get(&principal)
    }

    /// Grant: install `address -> principal` in both directions, first
    /// detaching the reverse binding of the address's prior principal.
    pub fn bind(&mut self, address: Vec<u8>, principal: Principal)
        requires
            old(self).wf(),
        ensures
            final(self).wf(),
            final(self).forward() == bind_forward(
                old(self).forward(),
                address@,
                principal,
            ),
            final(self).reverse() == bind_reverse(
                old(self).forward(),
                old(self).reverse(),
                address@,
                principal,
            ),
    {
        let reverse_value = clone_bytes(&address);
        let prior = match self.by_address.get(&address) {
            Some(p) => Some(*p),
            None => None,
        };
        if let Some(p_old) = prior {
            let _ = self.by_principal.remove(&p_old);
        }
        self.by_address.insert(address, principal);
        self.by_principal.insert(principal, reverse_value);
        proof {
            let fwd0 = old(self).forward();
            let rev0 = old(self).reverse();
            let fwd1 = self.forward();
            let rev1 = self.reverse();
            assert(rev1 =~= bind_reverse(fwd0, rev0, address@, principal));
            assert forall|q: Principal| #[trigger] rev1.contains_key(q) implies fwd1.contains_key(
                rev1[q],
            ) && fwd1[rev1[q]] == q by {
                if q != principal {
                    let a = rev1[q];
                    assert(rev0.contains_key(q) && rev0[q] == a);
                    if a == address@ {
                        assert(fwd0[address@] == q);
                        if fwd0.contains_key(address@) {
                            assert(!rev1.contains_key(fwd0[address@]));
                        }
                    }
                }
            }
        }
    }

    /// Revoke: remove both the forward and the reverse entry of a bound
    /// address; a miss leaves the registry untouched.
    pub fn unbind(&mut self, address: &Vec<u8>) -> (r: Option<Principal>)
        requires
            old(self).wf(),
        ensures
            final(self).wf(),
            r is Some <==> old(self).forward().contains_key(address@),
            old(self).forward().contains_key(address@) ==> ({
                &&& r == Some(old(self).forward()[address@])
                &&& final(self).forward() == old(self).forward().remove(address@)
                &&& final(self).reverse() == old(self).reverse().remove(
                    old(self).forward()[address@],
                )
            }),
            !old(self).forward().contains_key(address@) ==> *final(self) == *old(self),
    {
        match self.by_address.remove(address) {
            Some(p) => {
                let _ = self.by_principal.remove(&p);
                proof {
                    let fwd0 = old(self).forward();
                    let rev0 = old(self).reverse();
                    let fwd1 = self.forward();
                    let rev1 = self.reverse();
                    assert forall|q: Principal| #[trigger] rev1.contains_key(
                        q,
                    ) implies fwd1.contains_key(rev1[q]) && fwd1[rev1[q]] == q by {
                        let a = rev1[q];
                        assert(rev0.contains_key(q) && rev0[q] == a);
                        if a == address@ {
                            assert(fwd0[address@] == q);
                        }
                    }
                }
                Some(p)
            },
            None => None,
        }
    }
}

/// Law: a grant preserves full mutual inversion whenever the granted
/// principal is unbound or already bound to the very address being
/// granted.
pub proof fn lemma_bind_preserves_mutual_inverse(
    fwd: Map<Seq<u8>, Principal>,
    rev: Map<Principal, Seq<u8>>,
    address: Seq<u8>,
    principal: Principal,
)
    requires
        mutual_inverse(fwd, rev),
        !rev.contains_key(principal) || rev[principal] == address,
    ensures
        mutual_inverse(
            bind_forward(fwd, address, principal),
            bind_reverse(fwd, rev, address, principal),
        ),
{
    let fwd1 = bind_forward(fwd, address, principal);
    let rev1 = bind_reverse(fwd, rev, address, principal);
    assert forall|q: Principal| #[trigger] rev1.contains_key(q) implies fwd1.contains_key(rev1[q])
        && fwd1[rev1[q]] == q by {
        if q != principal {
            let a = rev1[q];
            assert(rev.contains_key(q) && rev[q] == a);
            if a == address {
                assert(fwd.contains_key(a));
                assert(fwd[address] == q);
                assert(!rev1.contains_key(fwd[address]));
            }
        }
    }
    assert forall|a: Seq<u8>| #[trigger] fwd1.contains_key(a) implies rev1.contains_key(fwd1[a])
        && rev1[fwd1[a]] == a by {
        if a != address {
            let q = fwd[a];
            assert(rev.contains_key(q) && rev[q] == a);
            if fwd.contains_key(address) && q == fwd[address] {
                assert(rev[q] == address);
            }
            if q == principal {
                assert(rev.contains_key(principal));
                assert(a == address);
            }
        }
    }
}

/// Law: a revoke of a bound address preserves full mutual inversion.
pub proof fn lemma_unbind_preserves_mutual_inverse(
    fwd: Map<Seq<u8>, Principal>,
    rev: Map<Principal, Seq<u8>>,
    address: Seq<u8>,
)
    requires
        mutual_inverse(fwd, rev),
        fwd.contains_key(address),
    ensures
        mutual_inverse(fwd.remove(address), rev.remove(fwd[address])),
{
    let p = fwd[address];
    let fwd1 = fwd.remove(address);
    let rev1 = rev.remove(p);
    assert forall|q: Principal| #[trigger] rev1.contains_key(q) implies fwd1.contains_key(rev1[q])
        && fwd1[rev1[q]] == q by {
        let a = rev1[q];
        assert(rev.contains_key(q) && rev[q] == a);
        if a == address {
            assert(fwd[address] == q);
        }
    }
    assert forall|a: Seq<u8>| #[trigger] fwd1.contains_key(a) implies rev1.contains_key(fwd1[a])
        && rev1[fwd1[a]] == a by {
        let q = fwd[a];
        assert(rev.contains_key(q) && rev[q] == a);
        if q == p {
            assert(rev[p] == address);
        }
    }
}

/// Law: granting an address to a second principal displaces the first
/// one's binding — afterwards the first principal has no bound address,
/// and the address and the second principal are bound to each other.
pub proof fn lemma_regrant_displaces(
    fwd0: Map<Seq<u8>, Principal>,
    rev0: Map<Principal, Seq<u8>>,
    address: Seq<u8>,
    first: Principal,
    second: Principal,
)
    requires
        first != second,
    ensures
        ({
            let fwd1 = bind_forward(fwd0, address, first);
            let rev1 = bind_reverse(fwd0, rev0, address, first);
            let fwd2 = bind_forward(fwd1, address, second);
            let rev2 = bind_reverse(fwd1, rev1, address, second);
            &&& !rev2.contains_key(first)
            &&& rev2.contains_key(second) && rev2[second] == address
            &&& fwd2.contains_key(address) && fwd2[address] == second
        }),
{
    let fwd1 = bind_forward(fwd0, address, first);
    let rev1 = bind_reverse(fwd0, rev0, address, first);
    assert(fwd1.contains_key(address) && fwd1[address] == first);
    assert(rev1.contains_key(first) && rev1[first] == address);
    let rev2 = bind_reverse(fwd1, rev1, address, second);
    assert(rev2 == rev1.remove(first).insert(second, address));
    assert(!rev2.contains_key(first));
}

} // verus!
