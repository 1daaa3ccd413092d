//! Call data: the byte buffer holding the transaction input. The engine
//! keeps it for its whole lifetime; no handler currently reads it (the
//! `CALLDATALOAD` opcode is a stub).

use vstd::prelude::*;

verus! {

#[derive(Debug)]
pub struct Calldata {
    bytes: Vec<u8>,
}

impl View for Calldata {
    type V = Seq<u8>;

    closed spec fn view(&self) -> Seq<u8> {
        self.bytes@
    }
}

impl Calldata {
    /// Wrap an initial transaction input.
    pub fn new(bytes: Vec<u8>) -> (r: Calldata)
        ensures
            r@ == bytes@,
    {
        Calldata { bytes }
    }

    /// The bytes currently held.
    pub fn data(&self) -> (r: &Vec<u8>)
        ensures
            r@ == self@,
    {
        &self.bytes
    }
}

impl Default for Calldata {
    fn default() -> (r: Calldata)
        ensures
            r@ == Seq::<u8>::empty(),
    {
        Calldata { bytes: Vec::new() }
    }
}

} // verus!
