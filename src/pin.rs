use vstd::prelude::*;

verus! {

/// A digital output that is wired to nothing.
///
/// Drivers that insist on a chip-select or reset line can be handed this
/// pin when no such line exists: every operation succeeds and nothing
/// observable changes.
pub struct NoOpPin;

impl NoOpPin {
    /// Drive the (absent) line low: always succeeds, changes nothing.
    pub fn set_low(&mut self) -> (r: Result<(), ()>)
        ensures
            r is Ok,
            *final(self) == *old(self),
    {
        Ok(())
    }

    /// Drive the (absent) line high: always succeeds, changes nothing.
    pub fn set_high(&mut self) -> (r: Result<(), ()>)
        ensures
            r is Ok,
            *final(self) == *old(self),
    {
        Ok(())
    }
}

} // verus!
