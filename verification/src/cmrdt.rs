//! The contract every composable field type satisfies.
//!
//! A field is an operation-based CRDT: mutations arrive as owned operations,
//! application is infallible (every precondition is the validator's
//! business), and validation is a pure check that reports the first
//! violation. The contracts are stated over an abstract model of the state,
//! so a composite of fields can itself satisfy the same contract one level
//! up, which allows arbitrary nesting.

use vstd::prelude::*;

verus! {

/// The verdict of a validator, as the `Result` a caller receives: the first
/// violation if there is one, and success otherwise.
pub open spec fn verdict<V>(v: Option<V>) -> Result<(), V> {
    match v {
        None => Ok(()),
        Some(e) => Err(e),
    }
}

/// An operation-based replicated data type.
pub trait CmRdt: Sized {
    /// A mutation of the replicated value.
    type Op;

    /// The structured error `validate_op` reports.
    type Validation;

    /// The mathematical state the contracts are stated over.
    type Model;

    /// The abstract value of this replica's state.
    spec fn model(&self) -> Self::Model;

    /// What applying `op` does to the abstract state.
    spec fn apply_model(m: Self::Model, op: Self::Op) -> Self::Model;

    /// The first violation `op` commits against the state `m`, if any.
    spec fn validate_model(m: Self::Model, op: Self::Op) -> Option<Self::Validation>;

    /// Applies `op` in place. Never fails: an op that validation would have
    /// rejected is absorbed without breaking the state.
    fn apply(&mut self, op: Self::Op)
        ensures
            final(self).model() == Self::apply_model(old(self).model(), op),
    ;

    /// Pure precondition check: reports the first violation `op` commits
    /// against the current state, without mutating anything.
    fn validate_op(&self, op: &Self::Op) -> (r: Result<(), Self::Validation>)
        ensures
            r == verdict(Self::validate_model(self.model(), *op)),
    ;
}

} // verus!
