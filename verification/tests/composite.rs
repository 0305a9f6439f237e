use composite_crdt::clock::Dot;
use composite_crdt::cmrdt::CmRdt;
use composite_crdt::composite::{Composite2, CompositeError, CompositeOp};
use composite_crdt::fields::{Counter, CounterError, CounterOp, Flag, FlagError, FlagOp};

fn fresh() -> Composite2<Counter, Flag> {
    Composite2::new(Counter::new(), Flag::new())
}

fn envelope(
    actor: u64,
    counter: u64,
    counter_op: Option<CounterOp>,
    flag_op: Option<FlagOp>,
) -> CompositeOp<CounterOp, FlagOp> {
    CompositeOp { dot: Dot { actor, counter }, field1_op: counter_op, field2_op: flag_op }
}

#[test]
fn scenario_counter_flag() {
    let mut c = fresh();
    assert_eq!(c.seen(7), 0);

    let op1 = envelope(7, 1, Some(CounterOp::Inc(1)), None);
    assert!(c.validate_op(&op1).is_ok());
    c.apply(op1);
    assert_eq!(c.field1.read(), 1);
    assert!(!c.field2.read());
    assert_eq!(c.seen(7), 1);

    // Re-delivering the same envelope is a pure no-op.
    let op1_again = envelope(7, 1, Some(CounterOp::Inc(1)), None);
    c.apply(op1_again);
    assert_eq!(c.field1.read(), 1);
    assert_eq!(c.seen(7), 1);

    // A different envelope under a duplicate dot is discarded even though a
    // payload is present.
    let op2 = envelope(7, 1, Some(CounterOp::Inc(1)), None);
    c.apply(op2);
    assert_eq!(c.field1.read(), 1);
    assert_eq!(c.seen(7), 1);
}

#[test]
fn idempotent_for_any_payload() {
    let mut c = fresh();
    c.apply(envelope(3, 1, Some(CounterOp::Inc(10)), None));
    assert_eq!(c.field1.read(), 10);

    // A stale dot is discarded whatever the sub-operations say.
    c.apply(envelope(3, 1, Some(CounterOp::Inc(99)), Some(FlagOp::Enable)));
    assert_eq!(c.field1.read(), 10);
    assert!(!c.field2.read());
    assert_eq!(c.seen(3), 1);
}

#[test]
fn causal_monotonicity() {
    let mut c = fresh();
    c.apply(envelope(5, 1, None, Some(FlagOp::Enable)));
    assert_eq!(c.seen(5), 1);
    c.apply(envelope(5, 2, Some(CounterOp::Inc(4)), None));
    assert_eq!(c.seen(5), 2);
    assert_eq!(c.field1.read(), 4);
    assert!(c.field2.read());
}

#[test]
fn rejected_stale_op_leaves_state_unchanged() {
    let mut c = fresh();
    c.apply(envelope(1, 1, Some(CounterOp::Inc(2)), None));

    // Invalid flag write under an already-incorporated dot: validation
    // rejects it, and apply's causal gate discards it without mutating.
    let op = envelope(1, 1, None, Some(FlagOp::Disable));
    match c.validate_op(&op) {
        Err(CompositeError::Field2(FlagError::AlreadyDisabled)) => {}
        _ => panic!("expected the second field's error"),
    }
    c.apply(op);
    assert_eq!(c.field1.read(), 2);
    assert!(!c.field2.read());
    assert_eq!(c.seen(1), 1);
}

#[test]
fn empty_op_rejected_and_apply_noop() {
    let mut c = fresh();
    let op = envelope(9, 1, None, None);
    assert!(matches!(c.validate_op(&op), Err(CompositeError::NoneOp)));
    c.apply(op);
    assert_eq!(c.seen(9), 0);
    assert_eq!(c.field1.read(), 0);
}

#[test]
fn first_failure_reported_in_declaration_order() {
    let mut c = fresh();
    c.apply(envelope(2, 1, Some(CounterOp::Inc(u64::MAX)), None));
    assert_eq!(c.field1.read(), u64::MAX);

    // Both sub-operations invalid: the counter would overflow and the flag
    // write changes nothing. The first field's error wins.
    let op = envelope(2, 2, Some(CounterOp::Inc(1)), Some(FlagOp::Disable));
    assert!(matches!(
        c.validate_op(&op),
        Err(CompositeError::Field1(CounterError::Overflow))
    ));
}

#[test]
fn dot_gap_rejected_by_clock() {
    let c = fresh();
    let op = envelope(4, 5, Some(CounterOp::Inc(1)), None);
    match c.validate_op(&op) {
        Err(CompositeError::VClock(gap)) => {
            assert_eq!(gap.actor, 4);
            assert_eq!(gap.next, 1);
            assert_eq!(gap.counter, 5);
        }
        _ => panic!("expected a vector clock error"),
    }
}

#[test]
fn gap_dot_still_applies() {
    // Apply does not re-check the clock's gap rule: a fresh dot above the
    // next expected counter is dispatched and incorporated as given.
    let mut c = fresh();
    c.apply(envelope(6, 3, Some(CounterOp::Inc(1)), None));
    assert_eq!(c.field1.read(), 1);
    assert_eq!(c.seen(6), 3);
}

#[test]
fn second_field_error_when_first_valid() {
    let mut c = fresh();
    c.apply(envelope(8, 1, None, Some(FlagOp::Enable)));
    let op = envelope(8, 2, Some(CounterOp::Inc(1)), Some(FlagOp::Enable));
    assert!(matches!(
        c.validate_op(&op),
        Err(CompositeError::Field2(FlagError::AlreadyEnabled))
    ));
}

#[test]
fn counter_saturated_at_max_counter_value() {
    let mut c = fresh();
    c.apply(envelope(1, u64::MAX, Some(CounterOp::Inc(1)), None));
    assert_eq!(c.seen(1), u64::MAX);

    // With the actor's counter at its ceiling every dot from it is stale,
    // and validation still answers without tripping on the clock.
    let op = envelope(1, u64::MAX, Some(CounterOp::Inc(1)), None);
    assert!(c.validate_op(&op).is_ok());
    c.apply(op);
    assert_eq!(c.field1.read(), 1);
}

#[test]
fn nested_composite_as_field() {
    // A composite satisfies the field contract itself, so it can stand as a
    // field of a larger composite.
    let inner = Composite2::new(Counter::new(), Flag::new());
    let mut outer = Composite2::new(inner, Counter::new());

    let inner_op = envelope(11, 1, Some(CounterOp::Inc(5)), None);
    let outer_op = CompositeOp {
        dot: Dot { actor: 11, counter: 1 },
        field1_op: Some(inner_op),
        field2_op: Some(CounterOp::Inc(2)),
    };
    assert!(outer.validate_op(&outer_op).is_ok());
    outer.apply(outer_op);
    assert_eq!(outer.field1.field1.read(), 5);
    assert_eq!(outer.field1.seen(11), 1);
    assert_eq!(outer.field2.read(), 2);
    assert_eq!(outer.seen(11), 1);
}

#[test]
fn minted_dots_are_consecutive() {
    let mut c = fresh();
    assert_eq!(c.next_dot(10), Some(Dot { actor: 10, counter: 1 }));
    let dot = c.next_dot(10).unwrap();
    c.apply(CompositeOp { dot, field1_op: Some(CounterOp::Inc(1)), field2_op: None });
    assert_eq!(c.next_dot(10), Some(Dot { actor: 10, counter: 2 }));
    assert_eq!(c.next_dot(11), Some(Dot { actor: 11, counter: 1 }));
}

#[test]
fn field_validators_stand_alone() {
    let counter = Counter::new();
    assert!(counter.validate_op(&CounterOp::Inc(u64::MAX)).is_ok());
    let mut full = Counter::new();
    full.apply(CounterOp::Inc(u64::MAX));
    assert!(matches!(
        full.validate_op(&CounterOp::Inc(1)),
        Err(CounterError::Overflow)
    ));

    let mut flag = Flag::new();
    assert!(matches!(
        flag.validate_op(&FlagOp::Disable),
        Err(FlagError::AlreadyDisabled)
    ));
    flag.apply(FlagOp::Enable);
    assert!(flag.read());
    assert!(matches!(
        flag.validate_op(&FlagOp::Enable),
        Err(FlagError::AlreadyEnabled)
    ));
    assert!(flag.validate_op(&FlagOp::Disable).is_ok());
}
