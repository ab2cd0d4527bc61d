pub mod controller;
use vstd::prelude::*;
use crate::sixaxis::controller::Controller;

verus! {

/// A trait that takes controller values and updates a state, sends
/// them over a network or does whatever with them.
pub trait ControllerHandler {
    fn controller_update(&mut self, controller: &Controller);
}

} // verus!
