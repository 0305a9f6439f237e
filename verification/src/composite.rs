//! The composite CRDT: a vector clock plus two declared fields, each a
//! field CRDT in its own right.
//!
//! One operation envelope carries a dot and an optional sub-operation per
//! field. Application is causally gated and idempotent: a dot the clock has
//! already incorporated, or an envelope with no payload, is discarded
//! silently; otherwise every present sub-operation is dispatched in field
//! declaration order and the dot is incorporated afterwards. Validation
//! mirrors the same order and reports the first violation without mutating
//! anything. The composite satisfies the field contract itself, so a
//! composite can stand as a field of a larger composite.

use vstd::prelude::*;

use crate::clock::{
    clock_admits, clock_get, clock_incorporate, clock_is_empty, clock_map, vclock_admits,
    vclock_get, vclock_incorporate, vclock_new, Dot,
};
use crate::cmrdt::CmRdt;

verus! {

/// The operation envelope of a composite: one dot plus an optional
/// sub-operation per field, in field declaration order.
pub struct CompositeOp<O1, O2> {
    pub dot: Dot,
    pub field1_op: Option<O1>,
    pub field2_op: Option<O2>,
}

/// The causal violation the vector clock reports: the dot's counter lies
/// above the next counter expected from its actor, leaving the counter gap
/// `next..counter` unfilled.
#[derive(Clone, Copy, PartialEq, Eq, Structural, Debug)]
pub struct DotGap {
    pub actor: u64,
    pub next: u64,
    pub counter: u64,
}

/// Why a composite operation is invalid: one variant per field wrapping that
/// field's own error verbatim, plus the two field-independent violations.
pub enum CompositeError<V1, V2> {
    /// The envelope carries no sub-operation at all.
    NoneOp,
    /// The dot violates the clock's causal precondition.
    VClock(DotGap),
    /// The first field's validator rejected its sub-operation.
    Field1(V1),
    /// The second field's validator rejected its sub-operation.
    Field2(V2),
}

/// The abstract state of a composite: the clock's contents together with
/// each field's own abstract state.
pub struct CompositeModel<M1, M2> {
    pub clock: Map<u64, u64>,
    pub field1: M1,
    pub field2: M2,
}

/// A composite replicated object: a vector clock owned exclusively by the
/// composite, and one instance per declared field.
pub struct Composite2<F1, F2> {
    pub v_clock: crdts::VClock<u64>,
    pub field1: F1,
    pub field2: F2,
}

impl<F1: CmRdt, F2: CmRdt> Composite2<F1, F2> {
    /// A fresh composite around the given field instances, with an empty
    /// clock: no dot has been incorporated yet.
    pub fn new(field1: F1, field2: F2) -> (c: Self)
        ensures
            clock_is_empty(c.model().clock),
            c.model().field1 == field1.model(),
            c.model().field2 == field2.model(),
    {
        Composite2 { v_clock: vclock_new(), field1, field2 }
    }

    /// The highest counter incorporated from `actor`, 0 if none.
    pub fn seen(&self, actor: u64) -> (r: u64)
        ensures
            r == clock_get(self.model().clock, actor),
    {
        vclock_get(&self.v_clock, actor)
    }

    /// Mints the dot a local producer should stamp its next operation with:
    /// one past the highest counter incorporated from `actor`. `None` once
    /// that counter has reached its ceiling.
    pub fn next_dot(&self, actor: u64) -> (r: Option<Dot>)
        ensures
            clock_get(self.model().clock, actor) < u64::MAX ==> r == Some(Dot {
                actor,
                counter: (clock_get(self.model().clock, actor) + 1) as u64,
            }),
            clock_get(self.model().clock, actor) == u64::MAX ==> r is None,
    {
        let seen = vclock_get(&self.v_clock, actor);
        if seen < u64::MAX {
            Some(Dot { actor, counter: seen + 1 })
        } else {
            None
        }
    }
}

impl<F1: CmRdt, F2: CmRdt> CmRdt for Composite2<F1, F2> {
    type Op = CompositeOp<F1::Op, F2::Op>;

    type Validation = CompositeError<F1::Validation, F2::Validation>;

    type Model = CompositeModel<F1::Model, F2::Model>;

    open spec fn model(&self) -> Self::Model {
        CompositeModel {
            clock: clock_map(self.v_clock),
            field1: self.field1.model(),
            field2: self.field2.model(),
        }
    }

    open spec fn apply_model(m: Self::Model, op: Self::Op) -> Self::Model {
        if clock_get(m.clock, op.dot.actor) >= op.dot.counter {
            m
        } else if op.field1_op is None && op.field2_op is None {
            m
        } else {
            CompositeModel {
                clock: clock_incorporate(m.clock, op.dot),
                field1: match op.field1_op {
                    Some(o) => F1::apply_model(m.field1, o),
                    None => m.field1,
                },
                field2: match op.field2_op {
                    Some(o) => F2::apply_model(m.field2, o),
                    None => m.field2,
                },
            }
        }
    }

    open spec fn validate_model(m: Self::Model, op: Self::Op) -> Option<Self::Validation> {
        if !clock_admits(m.clock, op.dot) {
            Some(CompositeError::VClock(DotGap {
                actor: op.dot.actor,
                next: (clock_get(m.clock, op.dot.actor) + 1) as u64,
                counter: op.dot.counter,
            }))
        } else if op.field1_op is None && op.field2_op is None {
            Some(CompositeError::NoneOp)
        } else if op.field1_op is Some && F1::validate_model(m.field1, op.field1_op->0) is Some {
            Some(CompositeError::Field1(F1::validate_model(m.field1, op.field1_op->0)->0))
        } else if op.field2_op is Some && F2::validate_model(m.field2, op.field2_op->0) is Some {
            Some(CompositeError::Field2(F2::validate_model(m.field2, op.field2_op->0)->0))
        } else {
            None
        }
    }

    fn apply(&mut self, op: Self::Op) {
        let CompositeOp { dot, field1_op, field2_op } = op;
        let seen = vclock_get(&self.v_clock, dot.actor);
        if seen >= dot.counter {
            return;
        }
        if field1_op.is_none() && field2_op.is_none() {
            return;
        }
        if let Some(o) = field1_op {
            self.field1.apply(o);
        }
        if let Some(o) = field2_op {
            self.field2.apply(o);
        }
        vclock_incorporate(&mut self.v_clock, dot);
    }

    fn validate_op(&self, op: &Self::Op) -> (r: Result<(), Self::Validation>) {
        let seen = vclock_get(&self.v_clock, op.dot.actor);
        let admitted = if seen == u64::MAX {
            true
        } else {
            vclock_admits(&self.v_clock, op.dot)
        };
        if !admitted {
            return Err(CompositeError::VClock(DotGap {
                actor: op.dot.actor,
                next: seen + 1,
                counter: op.dot.counter,
            }));
        }
        if op.field1_op.is_none() && op.field2_op.is_none() {
            return Err(CompositeError::NoneOp);
        }
        if let Some(o1) = &op.field1_op {
            match self.field1.validate_op(o1) {
                Err(e) => {
                    return Err(CompositeError::Field1(e));
                },
                Ok(()) => {},
            }
        }
        if let Some(o2) = &op.field2_op {
            match self.field2.validate_op(o2) {
                Err(e) => {
                    return Err(CompositeError::Field2(e));
                },
                Ok(()) => {},
            }
        }
        Ok(())
    }
}

/// Law (idempotence): an operation whose dot the clock has already
/// incorporated is a pure no-op under apply, whatever sub-operation payload
/// the envelope carries.
pub proof fn lemma_apply_idempotent<F1: CmRdt, F2: CmRdt>(
    m: CompositeModel<F1::Model, F2::Model>,
    op: CompositeOp<F1::Op, F2::Op>,
)
    requires
        clock_get(m.clock, op.dot.actor) >= op.dot.counter,
    ensures
        Composite2::<F1, F2>::apply_model(m, op) == m,
{
}

/// Law (causal monotonicity): when apply mutates state — the dot is fresh
/// and at least one sub-operation is present — the clock afterwards answers
/// exactly the dot's counter for the dot's actor.
pub proof fn lemma_apply_advances_clock<F1: CmRdt, F2: CmRdt>(
    m: CompositeModel<F1::Model, F2::Model>,
    op: CompositeOp<F1::Op, F2::Op>,
)
    requires
        clock_get(m.clock, op.dot.actor) < op.dot.counter,
        op.field1_op is Some || op.field2_op is Some,
    ensures
        clock_get(Composite2::<F1, F2>::apply_model(m, op).clock, op.dot.actor) == op.dot.counter,
{
}

/// Law (validation–apply agreement): an operation that validation rejects
/// and that apply refuses to dispatch — its dot already incorporated, or no
/// sub-operation present — leaves the state untouched. (A rejected
/// operation with a fresh dot and a payload is dispatched by the infallible
/// apply and does mutate: validation exists precisely to keep such an
/// operation from reaching apply.)
pub proof fn lemma_reject_then_apply_noop<F1: CmRdt, F2: CmRdt>(
    m: CompositeModel<F1::Model, F2::Model>,
    op: CompositeOp<F1::Op, F2::Op>,
)
    requires
        Composite2::<F1, F2>::validate_model(m, op) is Some,
        clock_get(m.clock, op.dot.actor) >= op.dot.counter || (op.field1_op is None
            && op.field2_op is None),
    ensures
        Composite2::<F1, F2>::apply_model(m, op) == m,
{
}

/// Law (empty-op rejection): an envelope with every sub-operation absent is
/// a pure no-op under apply — the clock does not advance — and validation
/// rejects it as `NoneOp` whenever the clock admits its dot (a dot the
/// clock rejects is reported first, as its own violation).
pub proof fn lemma_empty_op<F1: CmRdt, F2: CmRdt>(
    m: CompositeModel<F1::Model, F2::Model>,
    op: CompositeOp<F1::Op, F2::Op>,
)
    requires
        op.field1_op is None,
        op.field2_op is None,
    ensures
        Composite2::<F1, F2>::apply_model(m, op) == m,
        clock_admits(m.clock, op.dot) ==> Composite2::<F1, F2>::validate_model(m, op)
            == Some(CompositeError::<F1::Validation, F2::Validation>::NoneOp),
{
}

/// Law (first-failure determinism): when both sub-operations are present
/// and both invalid against a clock that admits the dot, validation reports
/// the first field's violation, never the second's.
pub proof fn lemma_first_failure<F1: CmRdt, F2: CmRdt>(
    m: CompositeModel<F1::Model, F2::Model>,
    op: CompositeOp<F1::Op, F2::Op>,
)
    requires
        clock_admits(m.clock, op.dot),
        op.field1_op is Some,
        op.field2_op is Some,
        F1::validate_model(m.field1, op.field1_op->0) is Some,
        F2::validate_model(m.field2, op.field2_op->0) is Some,
    ensures
        Composite2::<F1, F2>::validate_model(m, op) == Some(
            CompositeError::<F1::Validation, F2::Validation>::Field1(
                F1::validate_model(m.field1, op.field1_op->0)->0,
            ),
        ),
{
}

} // verus!
