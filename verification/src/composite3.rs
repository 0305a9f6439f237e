//! A composite over three declared fields.
//!
//! Same algorithm as the two-field composite: one envelope carrying a dot
//! and an optional sub-operation per field, causally gated idempotent
//! application, and validation that walks the fields in declaration order
//! and reports the first violation. Spelling the three-field shape out
//! shows how the explicit field list scales, and lets the declaration-order
//! guarantee be observed across a field that sits between two failing ones.

use vstd::prelude::*;

use crate::clock::{
    clock_admits, clock_get, clock_incorporate, clock_is_empty, clock_map, vclock_admits,
    vclock_get, vclock_incorporate, vclock_new, Dot,
};
use crate::cmrdt::CmRdt;
use crate::composite::DotGap;

verus! {

/// The operation envelope of a three-field composite.
pub struct Composite3Op<O1, O2, O3> {
    pub dot: Dot,
    pub field1_op: Option<O1>,
    pub field2_op: Option<O2>,
    pub field3_op: Option<O3>,
}

/// Why a three-field composite operation is invalid: one variant per field
/// wrapping that field's own error verbatim, plus the two field-independent
/// violations.
pub enum Composite3Error<V1, V2, V3> {
    /// The envelope carries no sub-operation at all.
    NoneOp,
    /// The dot violates the clock's causal precondition.
    VClock(DotGap),
    /// The first field's validator rejected its sub-operation.
    Field1(V1),
    /// The second field's validator rejected its sub-operation.
    Field2(V2),
    /// The third field's validator rejected its sub-operation.
    Field3(V3),
}

/// The abstract state of a three-field composite.
pub struct Composite3Model<M1, M2, M3> {
    pub clock: Map<u64, u64>,
    pub field1: M1,
    pub field2: M2,
    pub field3: M3,
}

/// A composite replicated object over three declared fields.
pub struct Composite3<F1, F2, F3> {
    pub v_clock: crdts::VClock<u64>,
    pub field1: F1,
    pub field2: F2,
    pub field3: F3,
}

impl<F1: CmRdt, F2: CmRdt, F3: CmRdt> Composite3<F1, F2, F3> {
    /// A fresh composite around the given field instances, with an empty
    /// clock: no dot has been incorporated yet.
    pub fn new(field1: F1, field2: F2, field3: F3) -> (c: Self)
        ensures
            clock_is_empty(c.model().clock),
            c.model().field1 == field1.model(),
            c.model().field2 == field2.model(),
            c.model().field3 == field3.model(),
    {
        Composite3 { v_clock: vclock_new(), field1, field2, field3 }
    }

    /// The highest counter incorporated from `actor`, 0 if none.
    pub fn seen(&self, actor: u64) -> (r: u64)
        ensures
            r == clock_get(self.model().clock, actor),
    {
        vclock_get(&self.v_clock, actor)
    }

    /// Mints the dot a local producer should stamp its next operation with:
    /// one past the highest counter incorporated from `actor`. `None` once
    /// that counter has reached its ceiling.
    pub fn next_dot(&self, actor: u64) -> (r: Option<Dot>)
        ensures
            clock_get(self.model().clock, actor) < u64::MAX ==> r == Some(Dot {
                actor,
                counter: (clock_get(self.model().clock, actor) + 1) as u64,
            }),
            clock_get(self.model().clock, actor) == u64::MAX ==> r is None,
    {
        let seen = vclock_get(&self.v_clock, actor);
        if seen < u64::MAX {
            Some(Dot { actor, counter: seen + 1 })
        } else {
            None
        }
    }
}

impl<F1: CmRdt, F2: CmRdt, F3: CmRdt> CmRdt for Composite3<F1, F2, F3> {
    type Op = Composite3Op<F1::Op, F2::Op, F3::Op>;

    type Validation = Composite3Error<F1::Validation, F2::Validation, F3::Validation>;

    type Model = Composite3Model<F1::Model, F2::Model, F3::Model>;

    open spec fn model(&self) -> Self::Model {
        Composite3Model {
            clock: clock_map(self.v_clock),
            field1: self.field1.model(),
            field2: self.field2.model(),
            field3: self.field3.model(),
        }
    }

    open spec fn apply_model(m: Self::Model, op: Self::Op) -> Self::Model {
        if clock_get(m.clock, op.dot.actor) >= op.dot.counter {
            m
        } else if op.field1_op is None && op.field2_op is None && op.field3_op is None {
            m
        } else {
            Composite3Model {
                clock: clock_incorporate(m.clock, op.dot),
                field1: match op.field1_op {
                    Some(o) => F1::apply_model(m.field1, o),
                    None => m.field1,
                },
                field2: match op.field2_op {
                    Some(o) => F2::apply_model(m.field2, o),
                    None => m.field2,
                },
                field3: match op.field3_op {
                    Some(o) => F3::apply_model(m.field3, o),
                    None => m.field3,
                },
            }
        }
    }

    open spec fn validate_model(m: Self::Model, op: Self::Op) -> Option<Self::Validation> {
        if !clock_admits(m.clock, op.dot) {
            Some(Composite3Error::VClock(DotGap {
                actor: op.dot.actor,
                next: (clock_get(m.clock, op.dot.actor) + 1) as u64,
                counter: op.dot.counter,
            }))
        } else if op.field1_op is None && op.field2_op is None && op.field3_op is None {
            Some(Composite3Error::NoneOp)
        } else if op.field1_op is Some && F1::validate_model(m.field1, op.field1_op->0) is Some {
            Some(Composite3Error::Field1(F1::validate_model(m.field1, op.field1_op->0)->0))
        } else if op.field2_op is Some && F2::validate_model(m.field2, op.field2_op->0) is Some {
            Some(Composite3Error::Field2(F2::validate_model(m.field2, op.field2_op->0)->0))
        } else if op.field3_op is Some && F3::validate_model(m.field3, op.field3_op->0) is Some {
            Some(Composite3Error::Field3(F3::validate_model(m.field3, op.field3_op->0)->0))
        } else {
            None
        }
    }

    fn apply(&mut self, op: Self::Op) {
        let Composite3Op { dot, field1_op, field2_op, field3_op } = op;
        let seen = vclock_get(&self.v_clock, dot.actor);
        if seen >= dot.counter {
            return;
        }
        if field1_op.is_none() && field2_op.is_none() && field3_op.is_none() {
            return;
        }
        if let Some(o) = field1_op {
            self.field1.apply(o);
        }
        if let Some(o) = field2_op {
            self.field2.apply(o);
        }
        if let Some(o) = field3_op {
            self.field3.apply(o);
        }
        vclock_incorporate(&mut self.v_clock, dot);
    }

    fn validate_op(&self, op: &Self::Op) -> (r: Result<(), Self::Validation>) {
        let seen = vclock_get(&self.v_clock, op.dot.actor);
        let admitted = if seen == u64::MAX {
            true
        } else {
            vclock_admits(&self.v_clock, op.dot)
        };
        if !admitted {
            return Err(Composite3Error::VClock(DotGap {
                actor: op.dot.actor,
                next: seen + 1,
                counter: op.dot.counter,
            }));
        }
        if op.field1_op.is_none() && op.field2_op.is_none() && op.field3_op.is_none() {
            return Err(Composite3Error::NoneOp);
        }
        if let Some(o1) = &op.field1_op {
            match self.field1.validate_op(o1) {
                Err(e) => {
                    return Err(Composite3Error::Field1(e));
                },
                Ok(()) => {},
            }
        }
        if let Some(o2) = &op.field2_op {
            match self.field2.validate_op(o2) {
                Err(e) => {
                    return Err(Composite3Error::Field2(e));
                },
                Ok(()) => {},
            }
        }
        if let Some(o3) = &op.field3_op {
            match self.field3.validate_op(o3) {
                Err(e) => {
                    return Err(Composite3Error::Field3(e));
                },
                Ok(()) => {},
            }
        }
        Ok(())
    }
}

/// Law (first-failure determinism, three fields): when the first and third
/// fields both carry invalid sub-operations against a clock that admits the
/// dot, validation reports the first field's violation, never the third's,
/// whatever the second field's sub-operation is.
pub proof fn lemma_first_and_third_invalid<F1: CmRdt, F2: CmRdt, F3: CmRdt>(
    m: Composite3Model<F1::Model, F2::Model, F3::Model>,
    op: Composite3Op<F1::Op, F2::Op, F3::Op>,
)
    requires
        clock_admits(m.clock, op.dot),
        op.field1_op is Some,
        op.field3_op is Some,
        F1::validate_model(m.field1, op.field1_op->0) is Some,
        F3::validate_model(m.field3, op.field3_op->0) is Some,
    ensures
        Composite3::<F1, F2, F3>::validate_model(m, op) == Some(
            Composite3Error::<F1::Validation, F2::Validation, F3::Validation>::Field1(
                F1::validate_model(m.field1, op.field1_op->0)->0,
            ),
        ),
{
}

} // verus!
