//! Handles to objects that live in the engine's pools.

use vstd::prelude::*;

verus! {

/// A non-owning reference to an object in one of the engine's pools: the
/// slot's index and the generation the slot had when the handle was made.
#[derive(Clone, Copy, Debug, PartialEq, Eq, Structural)]
pub struct Handle {
    pub index: u32,
    pub generation: u32,
}

impl Handle {
    /// The handle that refers to nothing: both parts are zero.
    pub open spec fn spec_none() -> Handle {
        Handle { index: 0, generation: 0 }
    }

    /// A handle refers to something unless it is the empty handle.
    pub open spec fn spec_is_some(self) -> bool {
        self != Handle::spec_none()
    }

    pub open spec fn spec_is_none(self) -> bool {
        self == Handle::spec_none()
    }

    pub fn new(index: u32, generation: u32) -> (h: Handle)
        ensures
            h == (Handle { index, generation }),
    {
        Handle { index, generation }
    }

    /// The engine's empty handle.
    pub fn none() -> (h: Handle)
        ensures
            h == Handle::spec_none(),
    {
        engine_default_handle()
    }

    /// Asks the engine whether the handle refers to something.
    pub fn is_some(self) -> (r: bool)
        ensures
            r == self.spec_is_some(),
    {
        engine_handle_is_some(self)
    }

    pub fn is_none(self) -> (r: bool)
        ensures
            r == self.spec_is_none(),
    {
        !self.is_some()
    }
}

impl Default for Handle {
    fn default() -> (h: Handle)
        ensures
            h == Handle::spec_none(),
    {
        Handle::none()
    }
}

/// Calls `Handle::default` of `fyrox_core::pool` and hands out the two parts
/// of what it returns. The engine's default handle is its constant `NONE`,
/// whose index and generation are both zero.
#[verifier::external_body]
fn engine_default_handle() -> (h: Handle)
    ensures
        h.index == 0,
        h.generation == 0,
{
    let e = fyrox_core::pool::Handle::<()>::default();
    Handle { index: e.index(), generation: e.generation() }
}

/// Calls `Handle::is_some` of `fyrox_core::pool` on the engine handle made of
/// the two parts. The engine answers `false` exactly when the index is zero
/// and the generation is zero.
#[verifier::external_body]
fn engine_handle_is_some(h: Handle) -> (r: bool)
    ensures
        r == !(h.index == 0 && h.generation == 0),
{
    fyrox_core::pool::Handle::<()>::new(h.index, h.generation).is_some()
}

} // verus!
