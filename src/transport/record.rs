//! The serialized data of a component together with its registration id.

use vstd::prelude::*;

verus! {

pub struct ComponentRecord {
    register_id: u32,
    data: Vec<u8>,
}

impl ComponentRecord {
    pub closed spec fn spec_register_id(&self) -> u32 {
        self.register_id
    }

    pub closed spec fn spec_data(&self) -> Seq<u8> {
        self.data@
    }

    pub fn new(register_id: u32, data: Vec<u8>) -> (r: Self)
        ensures
            r.spec_register_id() == register_id,
            r.spec_data() == data@,
    {
        ComponentRecord { register_id, data }
    }

    pub fn register_id(&self) -> (r: u32)
        ensures
            r == self.spec_register_id(),
    {
        self.register_id
    }

    pub fn data(&self) -> (r: &[u8])
        ensures
            r@ == self.spec_data(),
    {
        self.data.as_slice()
    }
}

} // verus!
