//! The latest input sampled for an object.

use vstd::prelude::*;

verus! {

/// A snapshot of the user's input: the last pointer position and the last
/// key code that the collector saw, if it saw any.
///
/// The collector writes it between frames. An object owns its snapshot; what
/// a variant makes of it while drawing is up to the variant.
#[derive(Clone, Copy, Debug, PartialEq, Eq)]
pub struct UserInput {
    pub pointer: Option<(i32, i32)>,
    pub key: Option<u32>,
}

impl UserInput {
    /// The snapshot before anything has been sampled.
    pub open spec fn empty() -> UserInput {
        UserInput { pointer: None, key: None }
    }

    /// A snapshot that holds no sample yet.
    pub fn new() -> (input: UserInput)
        ensures
            input == UserInput::empty(),
    {
        UserInput { pointer: None, key: None }
    }
}

impl Default for UserInput {
    /// A snapshot that holds no sample yet.
    fn default() -> (input: UserInput)
        ensures
            input == UserInput::empty(),
    {
        UserInput { pointer: None, key: None }
    }
}

} // verus!
