use vstd::prelude::*;

verus! {

/// The identifier of one connection; unique within a server.
#[derive(Debug, Clone, Copy, PartialEq, Eq)]
pub struct ConnID(pub u32);

impl ConnID {
    pub fn new(id: u32) -> (res: Self)
        ensures
            res.0 == id,
    {
        ConnID(id)
    }
}

} // verus!
