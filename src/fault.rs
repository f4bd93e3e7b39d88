//! What a builder reports about a refused argument, and the checks that
//! produce such reports, stated over the argument's value.
use crate::text::{decimal, is_native_text, signed_decimal};
use vstd::prelude::*;

verus! {

/// What a builder error says, as text: an argument holding a NUL, a missing
/// argument, or a number out of range with the allowed range and the value.
pub enum ArgFault {
    Invalid(Seq<char>),
    Missing(Seq<char>),
    OutOfRange(Seq<char>, Seq<char>, Seq<char>),
}

/// A required text: it must be set and hold no NUL.
pub open spec fn required_fault(field: Seq<char>, v: Option<String>) -> Option<ArgFault> {
    match v {
        None => Some(ArgFault::Missing(field)),
        Some(s) => if is_native_text(s@) {
            None
        } else {
            Some(ArgFault::Invalid(field))
        },
    }
}

/// An optional text: where set, it must hold no NUL.
pub open spec fn text_fault(field: Seq<char>, v: Option<String>) -> Option<ArgFault> {
    match v {
        Some(s) => if is_native_text(s@) {
            None
        } else {
            Some(ArgFault::Invalid(field))
        },
        None => None,
    }
}

/// An optional number that must be at least `min`.
pub open spec fn min_fault(
    field: Seq<char>,
    v: Option<u64>,
    min: nat,
    allowed: Seq<char>,
) -> Option<ArgFault> {
    match v {
        Some(x) => if x < min {
            Some(ArgFault::OutOfRange(field, allowed, decimal(x as nat)))
        } else {
            None
        },
        None => None,
    }
}

/// An optional number that must be 0 or at least `min`.
pub open spec fn zero_or_min_fault(
    field: Seq<char>,
    v: Option<u64>,
    min: nat,
    allowed: Seq<char>,
) -> Option<ArgFault> {
    match v {
        Some(x) => if x != 0 && x < min {
            Some(ArgFault::OutOfRange(field, allowed, decimal(x as nat)))
        } else {
            None
        },
        None => None,
    }
}

/// An optional number that must be at most `max`.
pub open spec fn max_fault(
    field: Seq<char>,
    v: Option<u8>,
    max: nat,
    allowed: Seq<char>,
) -> Option<ArgFault> {
    match v {
        Some(x) => if x > max {
            Some(ArgFault::OutOfRange(field, allowed, decimal(x as nat)))
        } else {
            None
        },
        None => None,
    }
}

/// An optional signed number that must be at least `min`.
pub open spec fn signed_min_fault(
    field: Seq<char>,
    v: Option<i64>,
    min: int,
    allowed: Seq<char>,
) -> Option<ArgFault> {
    match v {
        Some(x) => if x < min {
            Some(ArgFault::OutOfRange(field, allowed, signed_decimal(x as int)))
        } else {
            None
        },
        None => None,
    }
}

/// An optional number that must lie between `lo` and `hi`, both included.
pub open spec fn range_fault(
    field: Seq<char>,
    v: Option<u64>,
    lo: nat,
    hi: nat,
    allowed: Seq<char>,
) -> Option<ArgFault> {
    match v {
        Some(x) => if x < lo || x > hi {
            Some(ArgFault::OutOfRange(field, allowed, decimal(x as nat)))
        } else {
            None
        },
        None => None,
    }
}

} // verus!
