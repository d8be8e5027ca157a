//! Systems: the callbacks the application harness runs once per tick.

use vstd::prelude::*;

verus! {

/// A unit of per-tick work over the entity store, implemented by the
/// application.
pub trait System {
    /// Run one tick of this system.
    fn update(&mut self);
}

} // verus!
