//! Errors of timed operations.
use vstd::prelude::*;

verus! {

/// A timeout ran out before the future it guards had completed.
#[derive(Debug, PartialEq, Eq)]
pub struct Elapsed(());

impl Elapsed {
    /// The error; it has no parts to tell two of them apart.
    pub closed spec fn value() -> Elapsed {
        Elapsed(())
    }

    pub(crate) fn new() -> (elapsed: Elapsed)
        ensures
            elapsed == Elapsed::value(),
    {
        Elapsed(())
    }

    /// The message to show for this error.
    pub fn to_string(&self) -> (text: String)
        ensures
            text@ == "deadline has elapsed"@,
    {
        "deadline has elapsed".to_string()
    }
}

} // verus!
