use vstd::prelude::*;

verus! {

/// The closed set of business errors a module operation can report.  Each
/// variant names exactly one way an operation refuses to run; errors bubble
/// unchanged through dispatch and the runtime aggregator.
#[derive(Clone, Copy, Debug, PartialEq, Eq, Structural)]
pub enum Error {
    /// A transfer would drive the sender's balance below zero.
    InsufficientBalance,
    /// A transfer would push the recipient's balance past its type's range.
    Overflow,
    /// A claim was already registered for the content key.
    ClaimExists,
    /// No claim is registered for the content key.
    ClaimNotFound,
    /// The caller is not the account that owns the claim.
    NotClaimOwner,
    /// A block's declared number is not the successor of the current one.
    BlockNumberMismatch,
}

impl Error {
    /// The diagnostic text of this error.
    pub open spec fn spec_message(self) -> Seq<char> {
        match self {
            Error::InsufficientBalance => "Insufficient balance"@,
            Error::Overflow => "Overflow when adding to balance"@,
            Error::ClaimExists => "Claim already exists"@,
            Error::ClaimNotFound => "Claim does not exist"@,
            Error::NotClaimOwner => "Caller is not the owner of the claim"@,
            Error::BlockNumberMismatch => "Block number mismatch"@,
        }
    }

    /// A human-readable description of the error, for diagnostics.
    pub fn message(&self) -> (r: &'static str)
        ensures
            r@ == self.spec_message(),
    {
        match self {
            Error::InsufficientBalance => "Insufficient balance",
            Error::Overflow => "Overflow when adding to balance",
            Error::ClaimExists => "Claim already exists",
            Error::ClaimNotFound => "Claim does not exist",
            Error::NotClaimOwner => "Caller is not the owner of the claim",
            Error::BlockNumberMismatch => "Block number mismatch",
        }
    }
}

/// The result of dispatching one action: success, or a named business error.
pub type DispatchResult = Result<(), Error>;

/// The uniform call surface every state module offers: given a caller
/// identity and a module-specific action, mutate state and return success or
/// a named failure.  An implementation says through `dispatch_err` which
/// error an action meets against a given state, and through `dispatch_ok`
/// how a successful dispatch relates the state after to the state before;
/// a failed dispatch leaves the state untouched.
pub trait Dispatch: Sized {
    /// The identity type of the account submitting an action.
    type Caller;

    /// This module's own closed set of actions.
    type Call;

    /// The error, if any, that dispatching `call` for `caller` against the
    /// state `self` reports.
    spec fn dispatch_err(&self, caller: &Self::Caller, call: &Self::Call) -> Option<Error>;

    /// How a successful dispatch of `call` for `caller` relates the state
    /// after (`post`) to the state before (`self`).
    spec fn dispatch_ok(&self, post: &Self, caller: &Self::Caller, call: &Self::Call) -> bool;

    /// Route `call` to the operation that implements it, mutating `self`.
    fn dispatch(&mut self, caller: Self::Caller, call: Self::Call) -> (r: DispatchResult)
        ensures
            match old(self).dispatch_err(&caller, &call) {
                None => r is Ok && old(self).dispatch_ok(final(self), &caller, &call),
                Some(e) => r == Err::<(), Error>(e) && *final(self) == *old(self),
            },
    ;
}

/// A block header: the number the block declares for itself.
pub struct Header<N> {
    pub block_number: N,
}

/// One externally-submitted (caller, action) pair, the unit of per-action
/// execution within a block.
pub struct Extrinsic<C, L> {
    pub caller: C,
    pub call: L,
}

/// An ordered batch of extrinsics tagged with a declared block number, the
/// unit of batch execution.
pub struct Block<H, E> {
    pub header: H,
    pub extrinsics: Vec<E>,
}

} // verus!
