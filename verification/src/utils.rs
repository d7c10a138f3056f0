//! Reading the results of system calls.
use vstd::prelude::*;

verus! {

/// The return types of system calls that report failure as -1.
pub trait IsMinusOne: Sized {
    /// The number that was returned.
    spec fn value(&self) -> int;

    /// Whether the call reported failure.
    fn is_minus_one(&self) -> (failed: bool)
        ensures
            failed == (self.value() == -1),
    ;
}

impl IsMinusOne for i8 {
    open spec fn value(&self) -> int {
        *self as int
    }

    fn is_minus_one(&self) -> (failed: bool) {
        *self == -1
    }
}

impl IsMinusOne for i16 {
    open spec fn value(&self) -> int {
        *self as int
    }

    fn is_minus_one(&self) -> (failed: bool) {
        *self == -1
    }
}

impl IsMinusOne for i32 {
    open spec fn value(&self) -> int {
        *self as int
    }

    fn is_minus_one(&self) -> (failed: bool) {
        *self == -1
    }
}

impl IsMinusOne for i64 {
    open spec fn value(&self) -> int {
        *self as int
    }

    fn is_minus_one(&self) -> (failed: bool) {
        *self == -1
    }
}

impl IsMinusOne for isize {
    open spec fn value(&self) -> int {
        *self as int
    }

    fn is_minus_one(&self) -> (failed: bool) {
        *self == -1
    }
}

/// A system call failed; the thread's last OS error says why.
#[derive(Debug, Clone, Copy, PartialEq, Eq)]
pub struct CallFailed;

/// What a system call returned, unless that is -1, its sign of failure.
pub fn cvt<T: IsMinusOne>(t: T) -> (result: Result<T, CallFailed>)
    ensures
        result == if t.value() == -1 {
            Err(CallFailed)
        } else {
            Ok(t)
        },
{
    if t.is_minus_one() {
        Err(CallFailed)
    } else {
        Ok(t)
    }
}

/// What a call returned is read as the number it is.
pub proof fn law_results_are_numbers(a: i8, b: i16, c: i32, d: i64, e: isize)
    ensures
        IsMinusOne::value(&a) == a,
        IsMinusOne::value(&b) == b,
        IsMinusOne::value(&c) == c,
        IsMinusOne::value(&d) == d,
        IsMinusOne::value(&e) == e,
{
}

} // verus!
