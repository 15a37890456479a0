use vstd::prelude::*;

use crate::config::{AccountId, BlockNumber, Nonce};
use vstd::hash_map::StringHashMap;

verus! {

/// The system state module: the current block number, plus a per-account
/// monotonically increasing sequence counter (nonce).  An account absent
/// from the nonce map holds nonce zero.
pub struct Pallet {
    pub block_number: BlockNumber,
    pub nonce: StringHashMap<Nonce>,
}

/// The nonce an account holds in nonce map `m`: the stored value, or zero
/// when the account never submitted an action.
pub open spec fn nonce_in(m: Map<Seq<char>, Nonce>, who: Seq<char>) -> Nonce {
    if m.contains_key(who) {
        m[who]
    } else {
        0
    }
}

impl Pallet {
    /// The nonce of `who` in this module's state.
    pub open spec fn nonce_of(self, who: Seq<char>) -> Nonce {
        nonce_in(self.nonce@, who)
    }

    /// A fresh system state: block number zero, every nonce zero.
    pub fn new() -> (result: Self)
        ensures
            result.block_number == 0,
            result.nonce@ == Map::<Seq<char>, Nonce>::empty(),
            forall|a: Seq<char>| #[trigger] result.nonce_of(a) == 0,
    {
        Pallet { block_number: 0, nonce: StringHashMap::new() }
    }

    /// The current block number; starts at zero.
    pub fn block_number(&self) -> (r: BlockNumber)
        ensures
            r == self.block_number,
    {
        self.block_number
    }

    /// Advance the block counter by one.  Overflow of the counter is an
    /// unrecoverable invariant violation, so callers must rule it out.
    pub fn inc_block_number(&mut self)
        requires
            old(self).block_number < BlockNumber::MAX,
        ensures
            final(self).block_number == old(self).block_number + 1,
            final(self).nonce == old(self).nonce,
    {
        self.block_number = self.block_number + 1;
    }

    /// Advance the nonce of `who` by one.  Overflow of the counter is an
    /// unrecoverable invariant violation, so callers must rule it out.
    pub fn inc_nonce(&mut self, who: &AccountId)
        requires
            old(self).nonce_of(who@) < Nonce::MAX,
        ensures
            final(self).nonce@ == old(self).nonce@.insert(
                who@,
                (old(self).nonce_of(who@) + 1) as Nonce,
            ),
            final(self).nonce_of(who@) == old(self).nonce_of(who@) + 1,
            final(self).block_number == old(self).block_number,
    {
        let nonce = self.get_nonce(who);
        self.nonce.insert(who.clone(), nonce + 1);
    }

    /// The current sequence value of `who`; zero if absent.
    pub fn get_nonce(&self, who: &AccountId) -> (r: Nonce)
        ensures
            r == self.nonce_of(who@),
    {
        match self.nonce.get(who.as_str()) {
            Some(v) => *v,
            None => 0,
        }
    }
}

} // verus!
