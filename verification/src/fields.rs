//! Two small field CRDTs: a grow-only counter and a writable flag.
//!
//! They satisfy the field contract and serve as leaves for a composite.
//! Their validators have real failure cases (an increment that would
//! overflow, a write that changes nothing), so a composite over them
//! exercises the whole error taxonomy.

use vstd::prelude::*;

use crate::cmrdt::CmRdt;

verus! {

/// A grow-only counter over `u64`. Validation rejects an increment that
/// would overflow; application never fails and saturates at the ceiling if
/// such an increment reaches it anyway.
#[derive(Clone, Copy, PartialEq, Eq, Structural, Debug)]
pub struct Counter {
    pub value: u64,
}

/// A mutation of a [`Counter`].
#[derive(Clone, Copy, PartialEq, Eq, Structural, Debug)]
pub enum CounterOp {
    /// Add the given amount to the counter.
    Inc(u64),
}

/// Why a [`CounterOp`] is invalid against a counter state.
#[derive(Clone, Copy, PartialEq, Eq, Structural, Debug)]
pub enum CounterError {
    /// The increment would push the counter past `u64::MAX`.
    Overflow,
}

impl Counter {
    /// A counter at zero.
    pub fn new() -> (c: Counter)
        ensures
            c.value == 0,
    {
        Counter { value: 0 }
    }

    /// The current count.
    pub fn read(&self) -> (r: u64)
        ensures
            r == self.value,
    {
        self.value
    }
}

impl CmRdt for Counter {
    type Op = CounterOp;

    type Validation = CounterError;

    type Model = u64;

    open spec fn model(&self) -> u64 {
        self.value
    }

    open spec fn apply_model(m: u64, op: CounterOp) -> u64 {
        match op {
            CounterOp::Inc(n) => if m + n <= u64::MAX {
                (m + n) as u64
            } else {
                u64::MAX
            },
        }
    }

    open spec fn validate_model(m: u64, op: CounterOp) -> Option<CounterError> {
        match op {
            CounterOp::Inc(n) => if m + n > u64::MAX {
                Some(CounterError::Overflow)
            } else {
                None
            },
        }
    }

    fn apply(&mut self, op: CounterOp) {
        match op {
            CounterOp::Inc(n) => {
                if self.value <= u64::MAX - n {
                    self.value = self.value + n;
                } else {
                    self.value = u64::MAX;
                }
            },
        }
    }

    fn validate_op(&self, op: &CounterOp) -> (r: Result<(), CounterError>) {
        match op {
            CounterOp::Inc(n) => {
                if u64::MAX - self.value < *n {
                    Err(CounterError::Overflow)
                } else {
                    Ok(())
                }
            },
        }
    }
}

/// A boolean flag that records the last write applied to it.
#[derive(Clone, Copy, PartialEq, Eq, Structural, Debug)]
pub struct Flag {
    pub enabled: bool,
}

/// A mutation of a [`Flag`].
#[derive(Clone, Copy, PartialEq, Eq, Structural, Debug)]
pub enum FlagOp {
    /// Set the flag.
    Enable,
    /// Clear the flag.
    Disable,
}

/// Why a [`FlagOp`] is invalid against a flag state: a write that would
/// change nothing is rejected.
#[derive(Clone, Copy, PartialEq, Eq, Structural, Debug)]
pub enum FlagError {
    AlreadyEnabled,
    AlreadyDisabled,
}

impl Flag {
    /// A cleared flag.
    pub fn new() -> (f: Flag)
        ensures
            !f.enabled,
    {
        Flag { enabled: false }
    }

    /// Whether the flag is set.
    pub fn read(&self) -> (r: bool)
        ensures
            r == self.enabled,
    {
        self.enabled
    }
}

impl CmRdt for Flag {
    type Op = FlagOp;

    type Validation = FlagError;

    type Model = bool;

    open spec fn model(&self) -> bool {
        self.enabled
    }

    open spec fn apply_model(m: bool, op: FlagOp) -> bool {
        match op {
            FlagOp::Enable => true,
            FlagOp::Disable => false,
        }
    }

    open spec fn validate_model(m: bool, op: FlagOp) -> Option<FlagError> {
        match op {
            FlagOp::Enable => if m {
                Some(FlagError::AlreadyEnabled)
            } else {
                None
            },
            FlagOp::Disable => if !m {
                Some(FlagError::AlreadyDisabled)
            } else {
                None
            },
        }
    }

    fn apply(&mut self, op: FlagOp) {
        match op {
            FlagOp::Enable => {
                self.enabled = true;
            },
            FlagOp::Disable => {
                self.enabled = false;
            },
        }
    }

    fn validate_op(&self, op: &FlagOp) -> (r: Result<(), FlagError>) {
        match op {
            FlagOp::Enable => {
                if self.enabled {
                    Err(FlagError::AlreadyEnabled)
                } else {
                    Ok(())
                }
            },
            FlagOp::Disable => {
                if !self.enabled {
                    Err(FlagError::AlreadyDisabled)
                } else {
                    Ok(())
                }
            },
        }
    }
}

} // verus!
