use vstd::prelude::*;

use crate::balances;
use crate::config::{AccountId, Balance, BlockNumber, Nonce};
use crate::proof_of_existence;
use crate::support;
use crate::support::{Dispatch, DispatchResult, Error};
use crate::system;

verus! {

/// A block header declaring the runtime's block number type.
pub type Header = support::Header<BlockNumber>;

/// One (caller, runtime call) pair submitted for execution.
pub type Extrinsic = support::Extrinsic<AccountId, RuntimeCall>;

/// An ordered batch of extrinsics under one header.
pub type Block = support::Block<Header, Extrinsic>;

/// The closed set of all actions across modules: one variant per module,
/// each wrapping that module's own action type.
pub enum RuntimeCall {
    Balances(balances::Call),
    ProofOfExistence(proof_of_existence::Call),
}

/// The runtime aggregator: one instance of each module's state, owned
/// exclusively.  It routes dispatched actions to the owning module and
/// drives block execution.
pub struct Runtime {
    pub balances: balances::Pallet,
    pub system: system::Pallet,
    pub proof_of_existence: proof_of_existence::Pallet,
}

/// The whole runtime state seen abstractly: the ledger, the block counter,
/// the nonce map and the claim registry.
pub struct State {
    pub balances: Map<Seq<char>, Balance>,
    pub block_number: BlockNumber,
    pub nonces: Map<Seq<char>, Nonce>,
    pub claims: Map<Seq<char>, Seq<char>>,
}

impl View for Runtime {
    type V = State;

    open spec fn view(&self) -> State {
        State {
            balances: self.balances@,
            block_number: self.system.block_number,
            nonces: self.system.nonce@,
            claims: self.proof_of_existence@,
        }
    }
}

/// The error, if any, that dispatching `call` for `caller` against state
/// `s` reports: the aggregator validates nothing itself, each module's own
/// checks decide.
pub open spec fn call_err(s: State, caller: Seq<char>, call: RuntimeCall) -> Option<Error> {
    match call {
        RuntimeCall::Balances(balances::Call::Transfer { to, amount }) => balances::transfer_err(
            s.balances,
            caller,
            to@,
            amount,
        ),
        RuntimeCall::ProofOfExistence(proof_of_existence::Call::CreateClaim { claim }) => proof_of_existence::create_err(
            s.claims,
            claim@,
        ),
        RuntimeCall::ProofOfExistence(proof_of_existence::Call::RemoveClaim { claim }) => proof_of_existence::revoke_err(
            s.claims,
            caller,
            claim@,
        ),
    }
}

/// The state after dispatching `call` for `caller`: only the owning
/// module's component moves, and a failed call leaves the state unchanged.
pub open spec fn call_apply(s: State, caller: Seq<char>, call: RuntimeCall) -> State {
    match call {
        RuntimeCall::Balances(balances::Call::Transfer { to, amount }) => State {
            balances: balances::transfer_apply(s.balances, caller, to@, amount),
            ..s
        },
        RuntimeCall::ProofOfExistence(proof_of_existence::Call::CreateClaim { claim }) => State {
            claims: proof_of_existence::create_apply(s.claims, caller, claim@),
            ..s
        },
        RuntimeCall::ProofOfExistence(proof_of_existence::Call::RemoveClaim { claim }) => State {
            claims: proof_of_existence::revoke_apply(s.claims, caller, claim@),
            ..s
        },
    }
}

/// One report of an isolated extrinsic failure: the block it happened in,
/// the failing extrinsic's position within that block, and the error.
#[derive(Clone, Copy, Debug, PartialEq, Eq, Structural)]
pub struct ExtrinsicReport {
    pub block_number: BlockNumber,
    pub index: usize,
    pub error: Error,
}

/// The state with `who`'s nonce advanced by one, as happens before each
/// dispatch.
pub open spec fn bump_nonce(s: State, who: Seq<char>) -> State {
    State { nonces: s.nonces.insert(who, (system::nonce_in(s.nonces, who) + 1) as Nonce), ..s }
}

/// The state after one extrinsic: the caller's nonce advances first, then
/// the call is dispatched, a failed call changing nothing further.
pub open spec fn extrinsic_apply(s: State, e: Extrinsic) -> State {
    call_apply(bump_nonce(s, e.caller@), e.caller@, e.call)
}

/// The error the dispatch of extrinsic `e` against state `s` reports, if
/// any; the caller's nonce has already advanced when the call is judged.
pub open spec fn extrinsic_err(s: State, e: Extrinsic) -> Option<Error> {
    call_err(bump_nonce(s, e.caller@), e.caller@, e.call)
}

/// The state after an ordered batch of extrinsics, applied strictly in
/// sequence order.
pub open spec fn extrinsics_apply(s: State, exts: Seq<Extrinsic>) -> State
    decreases exts.len(),
{
    if exts.len() == 0 {
        s
    } else {
        extrinsics_apply(extrinsic_apply(s, exts[0]), exts.drop_first())
    }
}

/// The report, if any, of one extrinsic judged against state `s`: a failed
/// dispatch yields one entry carrying the block number, the extrinsic's
/// position and the error; a successful one yields nothing.
pub open spec fn report_of(s: State, e: Extrinsic, bn: BlockNumber, idx: int) -> Seq<
    ExtrinsicReport,
> {
    match extrinsic_err(s, e) {
        Some(err) => seq![(ExtrinsicReport { block_number: bn, index: idx as usize, error: err })],
        None => Seq::empty(),
    }
}

/// The failure reports of a batch applied in order against state `s`, the
/// first extrinsic counting as position `base`.
pub open spec fn reports_for(s: State, exts: Seq<Extrinsic>, bn: BlockNumber, base: int) -> Seq<
    ExtrinsicReport,
>
    decreases exts.len(),
{
    if exts.len() == 0 {
        Seq::empty()
    } else {
        report_of(s, exts[0], bn, base) + reports_for(
            extrinsic_apply(s, exts[0]),
            exts.drop_first(),
            bn,
            base + 1,
        )
    }
}

/// The state right after a block's first step: the block counter has
/// advanced, nothing else moved.
pub open spec fn block_start(s: State) -> State {
    State { block_number: (s.block_number + 1) as BlockNumber, ..s }
}

/// The state after one whole block: the block counter always advances, and
/// the extrinsics run only when the declared header number matches the
/// advanced counter.
pub open spec fn block_apply(s: State, b: Block) -> State {
    if b.header.block_number == s.block_number + 1 {
        extrinsics_apply(block_start(s), b.extrinsics@)
    } else {
        block_start(s)
    }
}

/// Peeling the last extrinsic off a prefix: applying `i + 1` extrinsics is
/// applying `i`, then the one at position `i`.
proof fn lemma_extrinsics_apply_take_succ(s: State, exts: Seq<Extrinsic>, i: int)
    requires
        0 <= i < exts.len(),
    ensures
        extrinsics_apply(s, exts.take(i + 1)) == extrinsic_apply(
            extrinsics_apply(s, exts.take(i)),
            exts[i],
        ),
    decreases i,
{
    if i == 0 {
        assert(exts.take(1).len() == 1);
        assert(exts.take(1)[0] == exts[0]);
        assert(exts.take(1).drop_first() =~= Seq::<Extrinsic>::empty());
        let e0 = extrinsic_apply(s, exts[0]);
        assert(extrinsics_apply(e0, exts.take(1).drop_first()) == e0);
        assert(extrinsics_apply(s, exts.take(1)) == extrinsic_apply(s, exts[0]));
        assert(exts.take(0).len() == 0);
        assert(extrinsics_apply(s, exts.take(0)) == s);
    } else {
        let s2 = extrinsic_apply(s, exts[0]);
        let rest = exts.drop_first();
        assert(exts.take(i + 1).len() == i + 1);
        assert(exts.take(i + 1)[0] == exts[0]);
        assert(exts.take(i + 1).drop_first() =~= rest.take(i));
        assert(extrinsics_apply(s, exts.take(i + 1)) == extrinsics_apply(s2, rest.take(i)));
        assert(exts.take(i).len() == i);
        assert(exts.take(i)[0] == exts[0]);
        assert(exts.take(i).drop_first() =~= rest.take(i - 1));
        assert(extrinsics_apply(s, exts.take(i)) == extrinsics_apply(s2, rest.take(i - 1)));
        lemma_extrinsics_apply_take_succ(s2, rest, i - 1);
        assert(rest[i - 1] == exts[i]);
    }
}

/// Peeling the last extrinsic off a prefix of the report sequence.
proof fn lemma_reports_take_succ(s: State, exts: Seq<Extrinsic>, bn: BlockNumber, base: int, i: int)
    requires
        0 <= i < exts.len(),
    ensures
        reports_for(s, exts.take(i + 1), bn, base) == reports_for(s, exts.take(i), bn, base)
            + report_of(extrinsics_apply(s, exts.take(i)), exts[i], bn, base + i),
    decreases i,
{
    if i == 0 {
        assert(exts.take(1).len() == 1);
        assert(exts.take(1)[0] == exts[0]);
        assert(exts.take(1).drop_first() =~= Seq::<Extrinsic>::empty());
        let e0 = extrinsic_apply(s, exts[0]);
        assert(reports_for(e0, exts.take(1).drop_first(), bn, base + 1) == Seq::<
            ExtrinsicReport,
        >::empty());
        assert(reports_for(s, exts.take(1), bn, base) == report_of(s, exts[0], bn, base) + Seq::<
            ExtrinsicReport,
        >::empty());
        assert(exts.take(0).len() == 0);
        assert(reports_for(s, exts.take(0), bn, base) == Seq::<ExtrinsicReport>::empty());
        assert(extrinsics_apply(s, exts.take(0)) == s);
        assert(report_of(s, exts[0], bn, base) + Seq::<ExtrinsicReport>::empty() =~= Seq::<
            ExtrinsicReport,
        >::empty() + report_of(s, exts[0], bn, base));
    } else {
        let s2 = extrinsic_apply(s, exts[0]);
        let rest = exts.drop_first();
        assert(exts.take(i + 1).len() == i + 1);
        assert(exts.take(i + 1)[0] == exts[0]);
        assert(exts.take(i + 1).drop_first() =~= rest.take(i));
        assert(reports_for(s, exts.take(i + 1), bn, base) == report_of(s, exts[0], bn, base)
            + reports_for(s2, rest.take(i), bn, base + 1));
        assert(exts.take(i).len() == i);
        assert(exts.take(i)[0] == exts[0]);
        assert(exts.take(i).drop_first() =~= rest.take(i - 1));
        assert(reports_for(s, exts.take(i), bn, base) == report_of(s, exts[0], bn, base)
            + reports_for(s2, rest.take(i - 1), bn, base + 1));
        assert(extrinsics_apply(s, exts.take(i)) == extrinsics_apply(s2, rest.take(i - 1)));
        lemma_reports_take_succ(s2, rest, bn, base + 1, i - 1);
        assert(rest[i - 1] == exts[i]);
        let head = report_of(s, exts[0], bn, base);
        let mid = reports_for(s2, rest.take(i - 1), bn, base + 1);
        let tail = report_of(extrinsics_apply(s, exts.take(i)), exts[i], bn, base + i);
        assert(head + (mid + tail) =~= (head + mid) + tail);
    }
}

/// Dispatching never touches the nonce map: only the per-extrinsic bump
/// moves it, so over a batch no nonce grows by more than the batch length.
proof fn lemma_nonce_growth(s: State, exts: Seq<Extrinsic>, a: Seq<char>)
    ensures
        system::nonce_in(extrinsics_apply(s, exts).nonces, a) <= system::nonce_in(s.nonces, a)
            + exts.len(),
    decreases exts.len(),
{
    if exts.len() == 0 {
    } else {
        let s2 = extrinsic_apply(s, exts[0]);
        assert(s2.nonces == bump_nonce(s, exts[0].caller@).nonces);
        lemma_nonce_growth(s2, exts.drop_first(), a);
    }
}

/// The number of extrinsics in `exts` submitted by caller `a`.
pub open spec fn attempts_by(exts: Seq<Extrinsic>, a: Seq<char>) -> int
    decreases exts.len(),
{
    if exts.len() == 0 {
        0
    } else {
        (if exts[0].caller@ == a {
            1int
        } else {
            0int
        }) + attempts_by(exts.drop_first(), a)
    }
}

/// Law: across a batch of extrinsics, an account's nonce advances by
/// exactly the number of extrinsics that account submitted, whether or not
/// their dispatches succeeded — nonces count attempts, not successes.
pub proof fn lemma_nonce_counts_attempts(s: State, exts: Seq<Extrinsic>, a: Seq<char>)
    requires
        system::nonce_in(s.nonces, a) + exts.len() <= Nonce::MAX,
    ensures
        system::nonce_in(extrinsics_apply(s, exts).nonces, a) == system::nonce_in(s.nonces, a)
            + attempts_by(exts, a),
    decreases exts.len(),
{
    if exts.len() == 0 {
    } else {
        let s2 = extrinsic_apply(s, exts[0]);
        assert(s2.nonces == bump_nonce(s, exts[0].caller@).nonces);
        lemma_nonce_counts_attempts(s2, exts.drop_first(), a);
    }
}

impl Runtime {
    /// A fresh runtime: every module starts all-empty and at zero.
    pub fn new() -> (result: Self)
        ensures
            result@.balances == Map::<Seq<char>, Balance>::empty(),
            result@.block_number == 0,
            result@.nonces == Map::<Seq<char>, Nonce>::empty(),
            result@.claims == Map::<Seq<char>, Seq<char>>::empty(),
    {
        Runtime {
            balances: balances::Pallet::new(),
            system: system::Pallet::new(),
            proof_of_existence: proof_of_existence::Pallet::new(),
        }
    }

    /// Execute one block, in strict order: advance the block counter, then
    /// validate the declared header number — on mismatch the whole block is
    /// refused with `BlockNumberMismatch` and no extrinsic runs, but the
    /// counter stays advanced.  Otherwise each extrinsic runs in declared
    /// order: the caller's nonce advances first, then the call is
    /// dispatched, and a dispatch failure is isolated into a report instead
    /// of aborting the block.  Counter overflow is an unrecoverable
    /// invariant violation, so callers must rule it out.
    pub fn execute_block(&mut self, block: Block) -> (r: Result<Vec<ExtrinsicReport>, Error>)
        requires
            old(self)@.block_number < BlockNumber::MAX,
            block.header.block_number == old(self)@.block_number + 1 ==> forall|j: int|
                0 <= j < block.extrinsics@.len() ==> system::nonce_in(
                    old(self)@.nonces,
                    #[trigger] block.extrinsics@[j].caller@,
                ) + block.extrinsics@.len() <= Nonce::MAX,
        ensures
            final(self)@ == block_apply(old(self)@, block),
            block.header.block_number == old(self)@.block_number + 1 ==> (r matches Ok(reports)
                && reports@ == reports_for(
                block_start(old(self)@),
                block.extrinsics@,
                block.header.block_number,
                0,
            )),
            block.header.block_number != old(self)@.block_number + 1 ==> r == Err::<
                Vec<ExtrinsicReport>,
                Error,
            >(Error::BlockNumberMismatch),
    {
        let ghost s0: State = self@;
        self.system.inc_block_number();
        proof {
            assert(self@ == block_start(s0));
        }

        if self.system.block_number() != block.header.block_number {
            return Err(Error::BlockNumberMismatch);
        }
        let support::Block { header, extrinsics } = block;
        let mut extrinsics = extrinsics;
        let bn = header.block_number;

        let ghost s1: State = self@;
        let ghost exts: Seq<Extrinsic> = extrinsics@;
        let mut reports: Vec<ExtrinsicReport> = Vec::new();
        let n = extrinsics.len();
        let mut i: usize = 0;
        while i < n
            invariant
                0 <= i <= n,
                n == exts.len(),
                extrinsics@ == exts.skip(i as int),
                self@ == extrinsics_apply(s1, exts.take(i as int)),
                reports@ == reports_for(s1, exts.take(i as int), bn, 0),
                forall|j: int|
                    0 <= j < n ==> system::nonce_in(s1.nonces, #[trigger] exts[j].caller@) + n
                        <= Nonce::MAX,
            decreases n - i,
        {
            let ext = extrinsics.remove(0);
            proof {
                assert(exts.skip(i as int)[0] == exts[i as int]);
                assert(exts.skip(i as int).remove(0) =~= exts.skip(i as int + 1));
                assert(ext == exts[i as int]);
            }
            let ghost pre: State = self@;
            let ghost c: Seq<char> = ext.caller@;
            proof {
                lemma_nonce_growth(s1, exts.take(i as int), c);
                assert(system::nonce_in(pre.nonces, c) < Nonce::MAX);
            }
            self.system.inc_nonce(&ext.caller);
            proof {
                assert(self@ == bump_nonce(pre, c));
            }
            let dr = self.dispatch(ext.caller, ext.call);
            match dr {
                Ok(_) => {},
                Err(e) => {
                    reports.push(ExtrinsicReport { block_number: bn, index: i, error: e });
                },
            }
            proof {
                assert(self@ == extrinsic_apply(pre, exts[i as int]));
                lemma_extrinsics_apply_take_succ(s1, exts, i as int);
                lemma_reports_take_succ(s1, exts, bn, 0, i as int);
                assert(reports@ =~= reports_for(s1, exts.take(i as int + 1), bn, 0));
            }
            i = i + 1;
        }
        proof {
            assert(exts.take(n as int) =~= exts);
        }
        Ok(reports)
    }
}

impl Dispatch for Runtime {
    type Caller = AccountId;

    type Call = RuntimeCall;

    open spec fn dispatch_err(&self, caller: &AccountId, call: &RuntimeCall) -> Option<Error> {
        call_err(self@, caller@, *call)
    }

    open spec fn dispatch_ok(&self, post: &Self, caller: &AccountId, call: &RuntimeCall) -> bool {
        post@ == call_apply(self@, caller@, *call)
    }

    fn dispatch(&mut self, caller: AccountId, call: RuntimeCall) -> (r: DispatchResult) {
        match call {
            RuntimeCall::Balances(inner) => self.balances.dispatch(caller, inner),
            RuntimeCall::ProofOfExistence(inner) => self.proof_of_existence.dispatch(caller, inner),
        }
    }
}

} // verus!
