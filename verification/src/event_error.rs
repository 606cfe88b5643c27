use vstd::prelude::*;

verus! {

/// Error returned from [`Event`] methods.
///
/// It is returned for an event one of whose texts holds a NUL character,
/// which no C string can carry, and for a raw event that is of no known type
/// or is an *ALIAS* without an anchor.
///
/// [`Event`]: enum.Event.html
#[derive(Clone, Copy, Debug, Eq, Hash, PartialEq, Structural)]
pub struct EventError;

} // verus!
