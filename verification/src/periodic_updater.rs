use vstd::prelude::*;

verus! {

/// Something that needs to be updated at a regular interval.
pub trait PeriodicUpdateHandler {
    fn periodic_update(&mut self);
}

} // verus!
