use vstd::prelude::*;

verus! {

/// A frame that is not valid JSON, or whose members do not have the shape
/// that the wire format prescribes.
#[derive(Clone, Copy, Debug, PartialEq, Eq, Structural)]
pub struct MalformedFrame;

/// A chat view was asked for without the identity of its user.
#[derive(Clone, Copy, Debug, PartialEq, Eq, Structural)]
pub struct MissingIdentityContext;

} // verus!
