//! Persistent storage: a key-to-value association owned by the engine. No
//! opcode handler currently touches it; it exists as an extension point.

use vstd::prelude::*;

verus! {

#[derive(Debug)]
pub struct Storage {
    slots: Vec<(String, String)>,
}

impl View for Storage {
    type V = Seq<(Seq<char>, Seq<char>)>;

    closed spec fn view(&self) -> Seq<(Seq<char>, Seq<char>)> {
        self.slots@.map_values(|p: (String, String)| (p.0@, p.1@))
    }
}

impl Storage {
    /// How many key/value pairs are held.
    pub fn len(&self) -> (n: usize)
        ensures
            n == self@.len(),
    {
        self.slots.len()
    }
}

impl Default for Storage {
    fn default() -> (r: Storage)
        ensures
            r@ == Seq::<(Seq<char>, Seq<char>)>::empty(),
    {
        let r = Storage { slots: Vec::new() };
        proof {
            assert(r@ =~= Seq::<(Seq<char>, Seq<char>)>::empty());
        }
        r
    }
}

} // verus!
