//! Linear memory: a byte-addressed container owned by the engine. No opcode
//! handler currently writes to it; it exists as an extension point.

use vstd::prelude::*;

verus! {

#[derive(Debug)]
pub struct Memory {
    bytes: Vec<u8>,
}

impl View for Memory {
    type V = Seq<u8>;

    closed spec fn view(&self) -> Seq<u8> {
        self.bytes@
    }
}

impl Memory {
    pub fn new() -> (r: Memory)
        ensures
            r@ == Seq::<u8>::empty(),
    {
        Memory { bytes: Vec::new() }
    }

    /// The bytes currently held.
    pub fn data(&self) -> (r: &Vec<u8>)
        ensures
            r@ == self@,
    {
        &self.bytes
    }
}

} // verus!
