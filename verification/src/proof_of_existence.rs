use vstd::prelude::*;

use crate::config::{AccountId, Content};
use crate::support::{Dispatch, DispatchResult, Error};
use vstd::hash_map::StringHashMap;

verus! {

/// The claim registry module (proof of existence): a mapping from content
/// key to the owning account, keys unique, first claim wins.
pub struct Pallet {
    pub claims: StringHashMap<AccountId>,
}

/// The registry map seen abstractly: content key to owner, both as
/// character sequences.
pub open spec fn owners_of(m: Map<Seq<char>, AccountId>) -> Map<Seq<char>, Seq<char>> {
    Map::new(|c: Seq<char>| m.contains_key(c), |c: Seq<char>| m[c]@)
}

/// The owner of `claim` in registry `m`: the owning account if claimed,
/// else none.
pub open spec fn owner_in(m: Map<Seq<char>, Seq<char>>, claim: Seq<char>) -> Option<Seq<char>> {
    if m.contains_key(claim) {
        Some(m[claim])
    } else {
        None
    }
}

/// The error creating `claim` reports against registry `m`, if any.
pub open spec fn create_err(m: Map<Seq<char>, Seq<char>>, claim: Seq<char>) -> Option<Error> {
    if m.contains_key(claim) {
        Some(Error::ClaimExists)
    } else {
        None
    }
}

/// The registry after an attempt by `caller` to create `claim`: unchanged
/// when the claim already exists, else extended by (claim, caller).
pub open spec fn create_apply(
    m: Map<Seq<char>, Seq<char>>,
    caller: Seq<char>,
    claim: Seq<char>,
) -> Map<Seq<char>, Seq<char>> {
    if create_err(m, claim) is None {
        m.insert(claim, caller)
    } else {
        m
    }
}

/// The error revoking `claim` as `caller` reports against registry `m`, if
/// any: a claim may only be revoked by its current owner.
pub open spec fn revoke_err(
    m: Map<Seq<char>, Seq<char>>,
    caller: Seq<char>,
    claim: Seq<char>,
) -> Option<Error> {
    if !m.contains_key(claim) {
        Some(Error::ClaimNotFound)
    } else if m[claim] != caller {
        Some(Error::NotClaimOwner)
    } else {
        None
    }
}

/// The registry after an attempt by `caller` to revoke `claim`: the entry
/// is removed only when `caller` owns it, else the registry is unchanged.
pub open spec fn revoke_apply(
    m: Map<Seq<char>, Seq<char>>,
    caller: Seq<char>,
    claim: Seq<char>,
) -> Map<Seq<char>, Seq<char>> {
    if revoke_err(m, caller, claim) is None {
        m.remove(claim)
    } else {
        m
    }
}

impl View for Pallet {
    type V = Map<Seq<char>, Seq<char>>;

    open spec fn view(&self) -> Map<Seq<char>, Seq<char>> {
        owners_of(self.claims@)
    }
}

impl Pallet {
    /// An empty registry: nothing is claimed.
    pub fn new() -> (result: Self)
        ensures
            result@ == Map::<Seq<char>, Seq<char>>::empty(),
    {
        let result = Pallet { claims: StringHashMap::new() };
        proof {
            assert(result@ =~= Map::<Seq<char>, Seq<char>>::empty());
        }
        result
    }

    /// The owner of `claim` if it is registered, else none; no side effect.
    pub fn get_claim(&self, claim: &Content) -> (r: Option<&AccountId>)
        ensures
            match r {
                Some(owner) => owner_in(self@, claim@) == Some(owner@),
                None => owner_in(self@, claim@) is None,
            },
    {
        self.claims.get(claim.as_str())
    }

    /// Register `claim` for `caller`; the first claim wins and a second
    /// attempt reports `ClaimExists`.
    pub fn create_claim(&mut self, caller: AccountId, claim: Content) -> (r: DispatchResult)
        ensures
            final(self)@ == create_apply(old(self)@, caller@, claim@),
            match create_err(old(self)@, claim@) {
                None => r is Ok,
                Some(e) => r == Err::<(), Error>(e) && *final(self) == *old(self),
            },
    {
        let ghost who = caller@;
        let ghost what = claim@;
        match self.get_claim(&claim) {
            Some(_) => Err(Error::ClaimExists),
            None => {
                self.claims.insert(claim, caller);
                proof {
                    assert(self@ =~= create_apply(old(self)@, who, what));
                }
                Ok(())
            },
        }
    }

    /// Remove `claim` on behalf of `caller`: reports `ClaimNotFound` when
    /// nothing is registered for it, `NotClaimOwner` when the stored owner
    /// differs from `caller`.
    pub fn remoke_claim(&mut self, caller: AccountId, claim: Content) -> (r: DispatchResult)
        ensures
            final(self)@ == revoke_apply(old(self)@, caller@, claim@),
            match revoke_err(old(self)@, caller@, claim@) {
                None => r is Ok,
                Some(e) => r == Err::<(), Error>(e) && *final(self) == *old(self),
            },
    {
        match self.claims.get(claim.as_str()) {
            Some(claim_owner) => {
                if !(*claim_owner == caller) {
                    return Err(Error::NotClaimOwner);
                }
            },
            None => {
                return Err(Error::ClaimNotFound);
            },
        }
        self.claims.remove(claim.as_str());
        proof {
            assert(self@ =~= revoke_apply(old(self)@, caller@, claim@));
        }
        Ok(())
    }
}

/// Law: the first claim wins — once `a` registered claim `c`, a second
/// attempt to claim `c`, by anyone, fails with `ClaimExists` and the
/// registry still attributes `c` to `a`.
pub proof fn lemma_first_claim_wins(
    m: Map<Seq<char>, Seq<char>>,
    a: Seq<char>,
    b: Seq<char>,
    c: Seq<char>,
)
    requires
        !m.contains_key(c),
    ensures
        ({
            let m1 = create_apply(m, a, c);
            create_err(m1, c) == Some(Error::ClaimExists) && create_apply(m1, b, c) == m1
                && owner_in(m1, c) == Some(a)
        }),
{
}

/// Law: only the owner can revoke — a revocation of claim `c` by `b` while
/// `a` owns it (`b != a`) fails with `NotClaimOwner` and leaves the
/// registry, in particular `c`'s owner, unchanged.
pub proof fn lemma_revoke_requires_owner(
    m: Map<Seq<char>, Seq<char>>,
    a: Seq<char>,
    b: Seq<char>,
    c: Seq<char>,
)
    requires
        owner_in(m, c) == Some(a),
        b != a,
    ensures
        revoke_err(m, b, c) == Some(Error::NotClaimOwner),
        revoke_apply(m, b, c) == m,
        owner_in(revoke_apply(m, b, c), c) == Some(a),
{
}

/// The claim registry module's own closed set of actions.
pub enum Call {
    CreateClaim { claim: Content },
    RemoveClaim { claim: Content },
}

impl Dispatch for Pallet {
    type Caller = AccountId;

    type Call = Call;

    open spec fn dispatch_err(&self, caller: &AccountId, call: &Call) -> Option<Error> {
        match call {
            Call::CreateClaim { claim } => create_err(self@, claim@),
            Call::RemoveClaim { claim } => revoke_err(self@, caller@, claim@),
        }
    }

    open spec fn dispatch_ok(&self, post: &Self, caller: &AccountId, call: &Call) -> bool {
        match call {
            Call::CreateClaim { claim } => post@ == create_apply(self@, caller@, claim@),
            Call::RemoveClaim { claim } => post@ == revoke_apply(self@, caller@, claim@),
        }
    }

    fn dispatch(&mut self, caller: AccountId, call: Call) -> (r: DispatchResult) {
        match call {
            Call::CreateClaim { claim } => self.create_claim(caller, claim),
            Call::RemoveClaim { claim } => self.remoke_claim(caller, claim),
        }
    }
}

} // verus!
