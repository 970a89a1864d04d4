//! The launch-parameter constraint: a range with optional bounds, or an
//! enumerated set of admissible values.

use vstd::prelude::*;
use crate::errors::PumpfunError;

verus! {

/// Whether `options` lists `value`.
fn contains_u64(options: &Vec<u64>, value: u64) -> (r: bool)
    ensures
        r == options@.contains(value),
{
    let n = options.len();
    for i in 0..n
        invariant
            n == options@.len(),
            forall|k: int| 0 <= k < i ==> options@[k] != value,
    {
        if options[i] == value {
            proof {
                assert(options@.contains(value)) by {
                    assert(options@[i as int] == value);
                }
            }
            return true;
        }
    }
    false
}

/// A constraint on a caller-supplied launch parameter. `Range` admits every
/// value between its optional bounds; `Enum` admits exactly the listed values.
#[derive(Clone, Debug)]
pub enum AmountConfig {
    Range { min: Option<u64>, max: Option<u64> },
    Enum(Vec<u64>),
}

impl AmountConfig {
    /// What `validate` returns: the first violated bound's error for a range,
    /// `ValueInvalid` for a value outside an enumerated set.
    pub open spec fn spec_validate(&self, value: u64) -> Result<(), PumpfunError> {
        match *self {
            AmountConfig::Range { min, max } => {
                if min is Some && value < min->0 {
                    Err(PumpfunError::ValueTooSmall)
                } else if max is Some && value > max->0 {
                    Err(PumpfunError::ValueTooLarge)
                } else {
                    Ok(())
                }
            },
            AmountConfig::Enum(ref options) => {
                if options@.contains(value) {
                    Ok(())
                } else {
                    Err(PumpfunError::ValueInvalid)
                }
            },
        }
    }

    /// True exactly of the values the constraint admits.
    pub open spec fn spec_admits(&self, value: u64) -> bool {
        match *self {
            AmountConfig::Range { min, max } => {
                &&& (min is Some ==> min->0 <= value)
                &&& (max is Some ==> value <= max->0)
            },
            AmountConfig::Enum(ref options) => options@.contains(value),
        }
    }

    /// Accepts `value` if and only if the constraint admits it: for a range,
    /// if it lies between the bounds that are present; for an enumerated set,
    /// if it is listed.
    pub fn validate(&self, value: u64) -> (r: Result<(), PumpfunError>)
        ensures
            r == self.spec_validate(value),
            r is Ok <==> self.spec_admits(value),
    {
        match self {
            AmountConfig::Range { min, max } => {
                if let Some(lo) = min {
                    if value < *lo {
                        return Err(PumpfunError::ValueTooSmall);
                    }
                }
                if let Some(hi) = max {
                    if value > *hi {
                        return Err(PumpfunError::ValueTooLarge);
                    }
                }
                Ok(())
            },
            AmountConfig::Enum(options) => {
                if contains_u64(options, value) {
                    Ok(())
                } else {
                    Err(PumpfunError::ValueInvalid)
                }
            },
        }
    }
}

} // verus!
