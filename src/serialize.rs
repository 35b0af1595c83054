use vstd::prelude::*;

verus! {

/// A buffer that a row of values is serialized into, owned on the native
/// side and read by the foreign side once the row is written.
pub struct SerializedRow {
    data: Vec<u8>,
}

impl SerializedRow {
    /// The bytes written so far.
    pub closed spec fn bytes(&self) -> Seq<u8> {
        self.data@
    }

    pub fn new() -> (r: Self)
        ensures
            r.bytes() == Seq::<u8>::empty(),
    {
        SerializedRow { data: Vec::new() }
    }

    /// The buffer, for a writer to append to.
    pub fn buffer_mut(&mut self) -> (r: &mut Vec<u8>)
        ensures
            r@ == old(self).bytes(),
            final(self).bytes() == final(r)@,
    {
        &mut self.data
    }

    /// The bytes written so far.
    pub fn data(&self) -> (r: &[u8])
        ensures
            r@ == self.bytes(),
    {
        self.data.as_slice()
    }

    pub fn len(&self) -> (r: usize)
        ensures
            r == self.bytes().len(),
    {
        self.data.len()
    }
}

} // verus!
