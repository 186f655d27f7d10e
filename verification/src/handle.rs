use vstd::prelude::*;

verus! {

/// A reference to a pooled object: the slot it occupies and the generation the
/// slot had when the object was put there.
///
/// A handle names an object only while the slot still carries that generation
/// and holds a payload. Generation zero is never given to an object.
#[derive(Clone, Copy, Debug, PartialEq, Eq, Hash, Structural)]
pub struct Handle {
    pub index: u32,
    pub generation: u32,
}

impl Handle {
    /// The handle that names nothing.
    pub open spec fn spec_none() -> Handle {
        Handle { index: 0, generation: 0 }
    }

    /// The pair by which a handle is keyed in a hash map.
    pub open spec fn key(self) -> (u32, u32) {
        (self.index, self.generation)
    }

    /// The handle that a key stands for.
    pub open spec fn from_key(key: (u32, u32)) -> Handle {
        Handle { index: key.0, generation: key.1 }
    }

    pub fn new(index: u32, generation: u32) -> (handle: Handle)
        ensures
            handle == (Handle { index, generation }),
    {
        Handle { index, generation }
    }

    #[verifier::when_used_as_spec(spec_none)]
    pub fn none() -> (handle: Handle)
        ensures
            handle == Handle::spec_none(),
    {
        Handle { index: 0, generation: 0 }
    }
}

impl Default for Handle {
    fn default() -> (handle: Handle)
        ensures
            handle == Handle::none(),
    {
        Handle { index: 0, generation: 0 }
    }
}

} // verus!
