use vstd::prelude::*;

use crate::config::{AccountId, Balance};
use crate::support::{Dispatch, DispatchResult, Error};
use vstd::hash_map::StringHashMap;

verus! {

/// The ledger state module: per-account balances, keys unique, an account
/// absent from the map holds balance zero and is never materialized until
/// first written.
pub struct Pallet {
    pub balances: StringHashMap<Balance>,
}

/// The balance an account holds in ledger map `m`: the stored value, or zero
/// when the account was never written.
pub open spec fn balance_in(m: Map<Seq<char>, Balance>, who: Seq<char>) -> Balance {
    if m.contains_key(who) {
        m[who]
    } else {
        0
    }
}

/// The error a transfer of `amount` from `caller` to `to` reports against
/// ledger `m`, if any.  Both checks read the pre-transfer snapshot of the
/// two balances, so a self-transfer is checked exactly like any other.
pub open spec fn transfer_err(
    m: Map<Seq<char>, Balance>,
    caller: Seq<char>,
    to: Seq<char>,
    amount: Balance,
) -> Option<Error> {
    if balance_in(m, caller) < amount {
        Some(Error::InsufficientBalance)
    } else if balance_in(m, to) + amount > Balance::MAX {
        Some(Error::Overflow)
    } else {
        None
    }
}

/// The ledger after a successful transfer: a self-transfer leaves the ledger
/// untouched, otherwise both pre-transfer snapshots move by `amount`.
pub open spec fn transfer_map(
    m: Map<Seq<char>, Balance>,
    caller: Seq<char>,
    to: Seq<char>,
    amount: Balance,
) -> Map<Seq<char>, Balance> {
    if caller == to {
        m
    } else {
        m.insert(caller, (balance_in(m, caller) - amount) as Balance).insert(
            to,
            (balance_in(m, to) + amount) as Balance,
        )
    }
}

/// The ledger after a transfer attempt, successful or not: a failed check
/// leaves the ledger unchanged.
pub open spec fn transfer_apply(
    m: Map<Seq<char>, Balance>,
    caller: Seq<char>,
    to: Seq<char>,
    amount: Balance,
) -> Map<Seq<char>, Balance> {
    if transfer_err(m, caller, to, amount) is None {
        transfer_map(m, caller, to, amount)
    } else {
        m
    }
}

impl View for Pallet {
    type V = Map<Seq<char>, Balance>;

    open spec fn view(&self) -> Map<Seq<char>, Balance> {
        self.balances@
    }
}

impl Pallet {
    /// The balance of `who` in this ledger: the stored value, or zero.
    pub open spec fn balance_of(self, who: Seq<char>) -> Balance {
        balance_in(self@, who)
    }

    /// An empty ledger: every account holds balance zero.
    pub fn new() -> (result: Self)
        ensures
            result@ == Map::<Seq<char>, Balance>::empty(),
            forall|a: Seq<char>| #[trigger] result.balance_of(a) == 0,
    {
        Pallet { balances: StringHashMap::new() }
    }

    /// Unconditionally overwrite the balance of `who` with `amount`.
    pub fn set_balance(&mut self, who: &AccountId, amount: Balance)
        ensures
            final(self)@ == old(self)@.insert(who@, amount),
            final(self).balance_of(who@) == amount,
            forall|a: Seq<char>| a != who@ ==> #[trigger] final(self).balance_of(a) == old(
                self,
            ).balance_of(a),
    {
        self.balances.insert(who.clone(), amount);
    }

    /// Read the balance of `who`; no side effect.
    pub fn balance(&self, who: &AccountId) -> (r: Balance)
        ensures
            r == self.balance_of(who@),
    {
        match self.balances.get(who.as_str()) {
            Some(v) => *v,
            None => 0,
        }
    }

    /// Move `amount` from `caller` to `to`.  Both checked operations are
    /// validated on the pre-transfer balance snapshots before either balance
    /// is written, so the transfer is all-or-nothing and a self-transfer is
    /// a no-op balance-wise.
    pub fn transfer(&mut self, caller: AccountId, to: AccountId, amount: Balance) -> (r:
        DispatchResult)
        ensures
            final(self)@ == transfer_apply(old(self)@, caller@, to@, amount),
            match transfer_err(old(self)@, caller@, to@, amount) {
                None => r is Ok,
                Some(e) => r == Err::<(), Error>(e) && *final(self) == *old(self),
            },
    {
        let caller_balance = self.balance(&caller);
        let to_balance = self.balance(&to);

        let new_caller_balance = match caller_balance.checked_sub(amount) {
            Some(v) => v,
            None => {
                return Err(Error::InsufficientBalance);
            },
        };
        let new_to_balance = match to_balance.checked_add(amount) {
            Some(v) => v,
            None => {
                return Err(Error::Overflow);
            },
        };

        if caller == to {
            return Ok(());
        }
        self.set_balance(&caller, new_caller_balance);
        self.set_balance(&to, new_to_balance);
        Ok(())
    }
}

/// Law: a successful transfer moves value, never creates or destroys it —
/// the two accounts' balances sum to the same total afterwards, and no
/// other account's balance moves.
pub proof fn lemma_transfer_conserves(
    m: Map<Seq<char>, Balance>,
    a: Seq<char>,
    b: Seq<char>,
    amount: Balance,
)
    requires
        transfer_err(m, a, b, amount) is None,
    ensures
        balance_in(transfer_map(m, a, b, amount), a) + balance_in(transfer_map(m, a, b, amount), b)
            == balance_in(m, a) + balance_in(m, b),
        forall|who: Seq<char>|
            who != a && who != b ==> #[trigger] balance_in(transfer_map(m, a, b, amount), who)
                == balance_in(m, who),
{
}

/// Law: a transfer immediately undone by the reverse transfer restores the
/// original balance of every account; the reverse transfer cannot fail once
/// the forward one succeeded.
pub proof fn lemma_transfer_round_trip(
    m: Map<Seq<char>, Balance>,
    a: Seq<char>,
    b: Seq<char>,
    amount: Balance,
)
    requires
        transfer_err(m, a, b, amount) is None,
    ensures
        transfer_err(transfer_map(m, a, b, amount), b, a, amount) is None,
        forall|who: Seq<char>|
            #[trigger] balance_in(
                transfer_map(transfer_map(m, a, b, amount), b, a, amount),
                who,
            ) == balance_in(m, who),
{
}

/// The ledger module's own closed set of actions.
pub enum Call {
    Transfer { to: AccountId, amount: Balance },
}

impl Dispatch for Pallet {
    type Caller = AccountId;

    type Call = Call;

    open spec fn dispatch_err(&self, caller: &AccountId, call: &Call) -> Option<Error> {
        match call {
            Call::Transfer { to, amount } => transfer_err(self@, caller@, to@, *amount),
        }
    }

    open spec fn dispatch_ok(&self, post: &Self, caller: &AccountId, call: &Call) -> bool {
        match call {
            Call::Transfer { to, amount } => post@ == transfer_map(self@, caller@, to@, *amount),
        }
    }

    fn dispatch(&mut self, caller: AccountId, call: Call) -> (r: DispatchResult) {
        match call {
            Call::Transfer { to, amount } => self.transfer(caller, to, amount),
        }
    }
}

} // verus!
