//! The native side of a bridge to a managed, foreign caller: ownership-typed
//! pointers with their allocation disciplines, the settlement of asynchronous
//! work into exactly one foreign callback, and the row and column plumbing
//! built on them.

use vstd::prelude::*;
use std::marker::PhantomData;

mod sealed;
pub mod ffi;
pub mod table;
pub mod task;
pub mod pre_serialized_values;
pub mod row_set;
pub mod serialize;

verus! {

/// An address owned by the foreign side, such as a completion handle or an
/// array to fill; `0` is null. It is only ever handed back, never read.
pub struct FfiPtr<'a, T> {
    addr: usize,
    _phantom: PhantomData<&'a T>,
}

impl<'a, T> FfiPtr<'a, T> {
    pub closed spec fn addr(&self) -> usize {
        self.addr
    }

    pub fn from_raw(addr: usize) -> (r: Self)
        ensures
            r.addr() == addr,
    {
        FfiPtr { addr, _phantom: PhantomData }
    }

    pub fn to_raw(&self) -> (r: usize)
        ensures
            r == self.addr(),
    {
        self.addr
    }

    pub fn is_null(&self) -> (r: bool)
        ensures
            r == (self.addr() == 0),
    {
        self.addr == 0
    }
}

} // verus!
