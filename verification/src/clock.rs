//! Causal bookkeeping: dots and the vector clock.
//!
//! The clock itself is `crdts::VClock<u64>`. Its contents are modelled as a
//! `Map<u64, u64>` from actor to the highest counter incorporated from that
//! actor, and every call into the clock goes through a wrapper whose contract
//! is stated over that map.

use vstd::prelude::*;

use crdts::CmRDT;

verus! {

/// A causal event identifier: the `counter`-th operation emitted by `actor`.
/// Counters start at 1; an actor the clock has never seen has an implied
/// counter of 0.
#[derive(Clone, Copy, PartialEq, Eq, Structural, Debug)]
pub struct Dot {
    pub actor: u64,
    pub counter: u64,
}

#[verifier::external_type_specification]
#[verifier::external_body]
#[verifier::reject_recursive_types(A)]
pub struct ExVClock<A: Ord>(crdts::VClock<A>);

/// The contents of a `crdts::VClock<u64>`: the mapping from each actor the
/// clock holds an entry for to that actor's counter.
pub uninterp spec fn clock_map(c: crdts::VClock<u64>) -> Map<u64, u64>;

/// The counter a clock with contents `m` answers for `actor`; an actor
/// without an entry has an implied counter of 0.
pub open spec fn clock_get(m: Map<u64, u64>, actor: u64) -> u64 {
    if m.dom().contains(actor) {
        m[actor]
    } else {
        0
    }
}

/// The clock's contents after incorporating `dot`: monotone per actor, so
/// only a counter above the current one moves the actor's entry.
pub open spec fn clock_incorporate(m: Map<u64, u64>, dot: Dot) -> Map<u64, u64> {
    if clock_get(m, dot.actor) < dot.counter {
        m.insert(dot.actor, dot.counter)
    } else {
        m
    }
}

/// The clock's causal precondition on a dot: it rejects exactly the dots
/// whose counter lies above the next counter expected from their actor.
pub open spec fn clock_admits(m: Map<u64, u64>, dot: Dot) -> bool {
    dot.counter <= clock_get(m, dot.actor) + 1
}

/// Whether clock contents hold no entry at all.
pub open spec fn clock_is_empty(m: Map<u64, u64>) -> bool {
    m == Map::<u64, u64>::empty()
}

/// Relies on `crdts::VClock::new`: a fresh clock has no entries.
#[verifier::external_body]
pub(crate) fn vclock_new() -> (c: crdts::VClock<u64>)
    ensures
        clock_is_empty(clock_map(c)),
{
    crdts::VClock::new()
}

/// Relies on `crdts::VClock::get`: the entry's counter, or 0 for an actor
/// with no entry.
#[verifier::external_body]
pub(crate) fn vclock_get(c: &crdts::VClock<u64>, actor: u64) -> (r: u64)
    ensures
        r == clock_get(clock_map(*c), actor),
{
    c.get(&actor)
}

/// Relies on `crdts::VClock::apply` (its `CmRDT` impl): it inserts the dot's
/// counter when that is above the actor's current one, and otherwise leaves
/// the clock unchanged.
#[verifier::external_body]
pub(crate) fn vclock_incorporate(c: &mut crdts::VClock<u64>, dot: Dot)
    ensures
        clock_map(*final(c)) == clock_incorporate(clock_map(*old(c)), dot),
{
    c.apply(crdts::Dot::new(dot.actor, dot.counter))
}

/// Relies on `crdts::VClock::validate_op` (its `CmRDT` impl): it accepts a
/// dot unless the dot's counter is above the next counter expected from its
/// actor. The callee computes that next counter with `+ 1`, so the actor's
/// current counter must be below `u64::MAX`.
#[verifier::external_body]
pub(crate) fn vclock_admits(c: &crdts::VClock<u64>, dot: Dot) -> (r: bool)
    requires
        clock_get(clock_map(*c), dot.actor) < u64::MAX,
    ensures
        r == clock_admits(clock_map(*c), dot),
{
    c.validate_op(&crdts::Dot::new(dot.actor, dot.counter)).is_ok()
}

} // verus!
