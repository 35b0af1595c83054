//! Pointers that cross to a foreign, garbage-collected caller, and the
//! three allocation disciplines that hand them out.
//!
//! An address is a handle into the table of one discipline for one type: an
//! exclusive heap ([`BoxHeap`]), a shared heap ([`ArcHeap`]) or a table of
//! borrowed values ([`RefTable`]). Every view goes through that table, so a
//! null, freed or forged address reads as absent instead of dangling.
//! Lifetimes and ownership kinds are checked at compile time as usual; the
//! tables' contents are specified and proved.

use vstd::prelude::*;
use std::marker::PhantomData;
use std::sync::Arc;
use crate::sealed::{Sealed, FromBoxSealed, FromArcSealed, FromRefSealed};
use crate::table::{HandleTable, lookup};

verus! {

/// The ownership (mutability) capability of a pointer: [`Shared`] or [`Exclusive`].
///
/// Shared pointers only ever give immutable views; exclusive pointers give an
/// immutable or a mutable view, never both at once.
pub trait Ownership: Sealed {}

/// Read-only, copy-capable capability.
pub struct Shared;

impl Sealed for Shared {}

impl Ownership for Shared {}

/// Unique, mutation-capable capability.
pub struct Exclusive;

impl Sealed for Exclusive {}

impl Ownership for Exclusive {}

/// Further compile-time properties of a pointer; for now only its ownership.
pub trait Properties: Sealed {
    type Ownership: Ownership;
}

impl<O: Ownership> Properties for O {
    type Ownership = O;
}

/// The pointee type of pointers whose type has been erased; no value of it
/// is ever read through such a pointer.
pub struct Opaque {
    _private: (),
}

/// A nullable handle into memory owned on the native side.
///
/// The lifetime `'a` says how long the pointee is guaranteed to stay valid:
/// `'static` for an owned pointer, whose holder must release it through the
/// matching discipline, and a shorter one for a borrowed pointer. `P` is the
/// ownership capability. Address `0` is null.
pub struct BridgedPtr<'a, T, P: Properties> {
    addr: usize,
    _phantom: PhantomData<&'a (T, P)>,
}

/// Owned shared pointer, as produced by [`ArcHeap::into_ptr`].
pub type BridgedOwnedSharedPtr<T> = BridgedPtr<'static, T, Shared>;

/// Shared pointer borrowed from some other owner.
pub type BridgedBorrowedSharedPtr<'a, T> = BridgedPtr<'a, T, Shared>;

/// Owned exclusive pointer, as produced by [`BoxHeap::into_ptr`].
pub type BridgedOwnedExclusivePtr<T> = BridgedPtr<'static, T, Exclusive>;

/// Exclusive pointer borrowed from some other owner, e.g. a mutable reborrow.
pub type BridgedBorrowedExclusivePtr<'a, T> = BridgedPtr<'a, T, Exclusive>;

impl<'a, T, P: Properties> BridgedPtr<'a, T, P> {
    /// The address this pointer carries; `0` when null.
    pub closed spec fn addr(&self) -> usize {
        self.addr
    }

    pub open spec fn spec_is_null(&self) -> bool {
        self.addr() == 0
    }

    pub fn null() -> (r: Self)
        ensures
            r.spec_is_null(),
    {
        BridgedPtr { addr: 0, _phantom: PhantomData }
    }

    pub fn is_null(&self) -> (r: bool)
        ensures
            r == self.spec_is_null(),
    {
        self.addr == 0
    }

    /// Builds a pointer from an address handed over the boundary.
    ///
    /// The caller picks the lifetime and the ownership honestly: an owned
    /// pointer only for an address that an export produced and that is not
    /// held anywhere else.
    pub fn from_raw(addr: usize) -> (r: Self)
        ensures
            r.addr() == addr,
    {
        BridgedPtr { addr, _phantom: PhantomData }
    }

    /// The address, or `None` for a null pointer.
    pub fn to_raw(&self) -> (r: Option<usize>)
        ensures
            r == (if self.spec_is_null() { None } else { Some(self.addr()) }),
    {
        if self.addr == 0 {
            None
        } else {
            Some(self.addr)
        }
    }

    /// Erases the pointee type, keeping lifetime and ownership.
    pub fn cast_to_void(self) -> (r: BridgedPtr<'a, Opaque, P>)
        ensures
            r.addr() == self.addr(),
    {
        BridgedPtr { addr: self.addr, _phantom: PhantomData }
    }

    /// Reborrows immutably: the result lives only as long as the borrow of `self`.
    pub fn borrow<'b>(&'b self) -> (r: BridgedPtr<'b, T, Shared>)
        ensures
            r.addr() == self.addr(),
    {
        BridgedPtr { addr: self.addr, _phantom: PhantomData }
    }
}

impl<'a, T> BridgedPtr<'a, T, Exclusive> {
    pub fn null_mut() -> (r: Self)
        ensures
            r.spec_is_null(),
    {
        BridgedPtr { addr: 0, _phantom: PhantomData }
    }

    /// Reborrows mutably: while the result lives, `self` cannot be used,
    /// reborrowed again or freed.
    pub fn borrow_mut<'b>(&'b mut self) -> (r: BridgedPtr<'b, T, Exclusive>)
        ensures
            r.addr() == old(self).addr(),
            *final(self) == *old(self),
    {
        BridgedPtr { addr: self.addr, _phantom: PhantomData }
    }
}

/// Declares which allocation discipline a native type uses; `Origin` is one
/// of [`FromBox`], [`FromArc`] or [`FromRef`].
pub trait FFI {
    type Origin;
}

/// Marks the exclusive-heap discipline.
pub struct FromBox;

/// Marks the shared-heap discipline.
pub struct FromArc;

/// Marks the borrowed-only discipline.
pub struct FromRef;

/// Types exported through the exclusive-heap discipline ([`BoxHeap`]).
pub trait BoxFFI: Sized + FromBoxSealed {}

/// Types exported through the shared-heap discipline ([`ArcHeap`]).
pub trait ArcFFI: Sized + FromArcSealed {}

/// Types lent out through the borrowed-only discipline ([`RefTable`]).
pub trait RefFFI: Sized + FromRefSealed {}

impl<T: FFI<Origin = FromBox>> FromBoxSealed for T {}

impl<T: FFI<Origin = FromBox>> BoxFFI for T {}

impl<T: FFI<Origin = FromArc>> FromArcSealed for T {}

impl<T: FFI<Origin = FromArc>> ArcFFI for T {}

impl<T: FFI<Origin = FromRef>> FromRefSealed for T {}

impl<T: FFI<Origin = FromRef>> RefFFI for T {}

/// The exclusive-heap discipline for the values of one type.
///
/// Exporting a value moves it into the heap under a fresh address and hands
/// the caller an owned exclusive pointer; importing takes it back out. An
/// address is never issued twice, so once a value has been imported or freed
/// its address is dead for good.
pub struct BoxHeap<T: BoxFFI> {
    table: HandleTable<T>,
}

impl<T: BoxFFI> BoxHeap<T> {
    /// The live addresses and the values behind them.
    pub closed spec fn view(&self) -> Map<usize, T> {
        self.table@
    }

    /// How many addresses have been handed out.
    pub closed spec fn issued(&self) -> nat {
        self.table.issued()
    }

    /// `a` was exported once and has since been imported or freed.
    pub open spec fn retired(&self, a: usize) -> bool {
        0 < a <= self.issued() && !self@.contains_key(a)
    }

    /// `post` is `pre` after `v` was exported at address `a`.
    pub open spec fn exported(pre: Self, post: Self, v: T, a: usize) -> bool {
        &&& a == pre.issued() + 1
        &&& post.issued() == a
        &&& post@ == pre@.insert(a, v)
    }

    /// `post` is `pre` after the value at address `a` was taken out, `r` being
    /// what came out.
    pub open spec fn imported(pre: Self, post: Self, a: usize, r: Option<T>) -> bool {
        &&& r == lookup(pre@, a)
        &&& post.issued() == pre.issued()
        &&& post@ == pre@.remove(a)
    }

    /// `post` is `pre` after the live value at address `a` was changed to `v`
    /// through a mutable view.
    pub open spec fn written(pre: Self, post: Self, a: usize, v: T) -> bool {
        &&& pre@.contains_key(a)
        &&& post.issued() == pre.issued()
        &&& post@ == pre@.insert(a, v)
    }

    /// No live value sits at the null address.
    pub proof fn lemma_null_never_live(&self)
        ensures
            !self@.contains_key(0),
            forall|a: usize| #[trigger] self@.contains_key(a) ==> 0 < a <= self.issued(),
    {
        self.table.lemma_live_handles_issued();
    }

    pub fn new() -> (r: Self)
        ensures
            r@ == Map::<usize, T>::empty(),
            r.issued() == 0,
    {
        BoxHeap { table: HandleTable::new() }
    }

    /// Whether another value can still be exported.
    pub fn has_room(&self) -> (r: bool)
        ensures
            r == (self.issued() < usize::MAX),
    {
        self.table.has_room()
    }

    /// How many addresses have been handed out.
    pub fn issued_count(&self) -> (r: usize)
        ensures
            r == self.issued(),
    {
        self.table.issued_count()
    }

    /// Exports `value`: the caller now owns the returned pointer and must
    /// eventually give it back to [`BoxHeap::free`] or [`BoxHeap::from_ptr`].
    pub fn into_ptr(&mut self, value: Box<T>) -> (r: BridgedOwnedExclusivePtr<T>)
        requires
            old(self).issued() < usize::MAX,
        ensures
            !r.spec_is_null(),
            Self::exported(*old(self), *final(self), *value, r.addr()),
    {
        let a = self.table.insert(*value);
        BridgedPtr::from_raw(a)
    }

    /// Imports an owned pointer, consuming it: the value comes back out of the
    /// heap. `None` when the pointer is null or names no live value.
    pub fn from_ptr(&mut self, ptr: BridgedOwnedExclusivePtr<T>) -> (r: Option<Box<T>>)
        ensures
            Self::imported(
                *old(self),
                *final(self),
                ptr.addr(),
                match r {
                    Some(b) => Some(*b),
                    None => None,
                },
            ),
            ptr.spec_is_null() ==> r is None && final(self)@ == old(self)@,
    {
        proof {
            self.lemma_null_never_live();
        }
        match self.table.remove(ptr.addr) {
            Some(v) => Some(Box::new(v)),
            None => None,
        }
    }

    /// An immutable view of the pointee, bound to the borrow of the heap.
    pub fn as_ref<'h, O: Ownership>(&'h self, ptr: BridgedPtr<'_, T, O>) -> (r: Option<&'h T>)
        ensures
            match r {
                Some(v) => self@.contains_key(ptr.addr()) && *v == self@[ptr.addr()],
                None => !self@.contains_key(ptr.addr()),
            },
            ptr.spec_is_null() ==> r is None,
    {
        proof {
            self.lemma_null_never_live();
        }
        self.table.get(ptr.addr)
    }

    /// A mutable view of the pointee; only exclusive pointers give one.
    pub fn as_mut_ref<'h>(&'h mut self, ptr: BridgedPtr<'_, T, Exclusive>) -> (r: Option<&'h mut T>)
        ensures
            match r {
                None => !old(self)@.contains_key(ptr.addr()) && *final(self) == *old(self),
                Some(m) => {
                    &&& *m == old(self)@[ptr.addr()]
                    &&& Self::written(*old(self), *final(self), ptr.addr(), *final(m))
                },
            },
            ptr.spec_is_null() ==> r is None,
    {
        proof {
            self.lemma_null_never_live();
        }
        self.table.get_mut(ptr.addr)
    }

    /// Frees the pointee: imports it and drops it. The pointer is consumed,
    /// so it cannot be imported again:
    ///
    /// ```compile_fail,E0382
    /// use csharp_wrapper::ffi::{BoxHeap, BridgedOwnedExclusivePtr, FromBox, FFI};
    /// struct Foo(u32);
    /// impl FFI for Foo {
    ///     type Origin = FromBox;
    /// }
    ///
    /// let mut heap: BoxHeap<Foo> = BoxHeap::new();
    /// let ptr: BridgedOwnedExclusivePtr<Foo> = heap.into_ptr(Box::new(Foo(42)));
    /// heap.free(ptr);
    /// let _ = heap.from_ptr(ptr).is_some();
    /// ```
    pub fn free(&mut self, ptr: BridgedOwnedExclusivePtr<T>)
        ensures
            Self::imported(*old(self), *final(self), ptr.addr(), lookup(old(self)@, ptr.addr())),
    {
        let _ = self.from_ptr(ptr);
    }

    pub fn null<'a>() -> (r: BridgedPtr<'a, T, Shared>)
        ensures
            r.spec_is_null(),
    {
        BridgedPtr::null()
    }

    pub fn null_mut<'a>() -> (r: BridgedPtr<'a, T, Exclusive>)
        ensures
            r.spec_is_null(),
    {
        BridgedPtr::null_mut()
    }
}

/// The shared-heap discipline for the values of one type.
///
/// Each owned shared pointer stands for one strong reference, which the heap
/// holds on the foreign side's behalf until the pointer is imported or freed.
/// Any shared pointer to a live address, owned or borrowed, can give a new
/// native reference through [`ArcHeap::cloned_from_ptr`].
pub struct ArcHeap<T: ArcFFI> {
    table: HandleTable<Arc<T>>,
}

impl<T: ArcFFI> ArcHeap<T> {
    /// The live addresses and the values behind them.
    pub closed spec fn view(&self) -> Map<usize, T> {
        self.table@.map_values(|a: Arc<T>| *a)
    }

    /// How many addresses have been handed out.
    pub closed spec fn issued(&self) -> nat {
        self.table.issued()
    }

    /// `a` was exported once and has since been imported or freed.
    pub open spec fn retired(&self, a: usize) -> bool {
        0 < a <= self.issued() && !self@.contains_key(a)
    }

    /// How many strong references the heap holds for the foreign side.
    pub open spec fn count(&self) -> nat {
        self@.dom().len()
    }

    /// `post` is `pre` after `v` was exported at address `a`.
    pub open spec fn exported(pre: Self, post: Self, v: T, a: usize) -> bool {
        &&& a == pre.issued() + 1
        &&& post.issued() == a
        &&& post@ == pre@.insert(a, v)
    }

    /// `post` is `pre` after the reference at address `a` was taken out, `r`
    /// being the value it refers to.
    pub open spec fn imported(pre: Self, post: Self, a: usize, r: Option<T>) -> bool {
        &&& r == lookup(pre@, a)
        &&& post.issued() == pre.issued()
        &&& post@ == pre@.remove(a)
    }

    /// No live value sits at the null address, and the heap holds finitely
    /// many references.
    pub proof fn lemma_null_never_live(&self)
        ensures
            !self@.contains_key(0),
            forall|a: usize| #[trigger] self@.contains_key(a) ==> 0 < a <= self.issued(),
            self@.dom().finite(),
    {
        self.table.lemma_live_handles_issued();
        assert(self@.dom() =~= self.table@.dom());
    }

    /// Exporting adds one reference; importing a live one removes it.
    pub proof fn lemma_count_steps(pre: Self, post: Self, v: T, a: usize, r: Option<T>)
        ensures
            Self::exported(pre, post, v, a) ==> post.count() == pre.count() + 1,
            Self::imported(pre, post, a, r) && r is Some ==> post.count() + 1 == pre.count(),
    {
        pre.lemma_null_never_live();
        if Self::exported(pre, post, v, a) {
            assert(!pre@.contains_key(a));
            assert(post@.dom() =~= pre@.dom().insert(a));
        }
        if Self::imported(pre, post, a, r) && r is Some {
            assert(post@.dom() =~= pre@.dom().remove(a));
        }
    }

    pub fn new() -> (r: Self)
        ensures
            r@ == Map::<usize, T>::empty(),
            r.issued() == 0,
    {
        let r = ArcHeap { table: HandleTable::new() };
        assert(r@ =~= Map::<usize, T>::empty());
        r
    }

    /// Whether another reference can still be exported.
    pub fn has_room(&self) -> (r: bool)
        ensures
            r == (self.issued() < usize::MAX),
    {
        self.table.has_room()
    }

    /// Exports a strong reference: the returned owned pointer stands for it
    /// and must eventually reach [`ArcHeap::free`] or [`ArcHeap::from_ptr`].
    pub fn into_ptr(&mut self, value: Arc<T>) -> (r: BridgedOwnedSharedPtr<T>)
        requires
            old(self).issued() < usize::MAX,
        ensures
            !r.spec_is_null(),
            Self::exported(*old(self), *final(self), *value, r.addr()),
    {
        let a = self.table.insert(value);
        assert(self@ =~= old(self)@.insert(a, *value));
        BridgedPtr::from_raw(a)
    }

    /// Imports an owned pointer, consuming it: the strong reference it stood
    /// for comes back to the caller. `None` when the pointer is null or names
    /// no live reference.
    pub fn from_ptr(&mut self, ptr: BridgedOwnedSharedPtr<T>) -> (r: Option<Arc<T>>)
        ensures
            Self::imported(
                *old(self),
                *final(self),
                ptr.addr(),
                match r {
                    Some(a) => Some(*a),
                    None => None,
                },
            ),
            ptr.spec_is_null() ==> r is None && final(self)@ == old(self)@,
    {
        proof {
            self.lemma_null_never_live();
        }
        let r = self.table.remove(ptr.addr);
        assert(self@ =~= old(self)@.remove(ptr.addr()));
        r
    }

    /// A new strong reference to the value behind any shared pointer; the
    /// heap itself is left as it is.
    pub fn cloned_from_ptr(&self, ptr: BridgedPtr<'_, T, Shared>) -> (r: Option<Arc<T>>)
        ensures
            match r {
                Some(a) => self@.contains_key(ptr.addr()) && *a == self@[ptr.addr()],
                None => !self@.contains_key(ptr.addr()),
            },
            ptr.spec_is_null() ==> r is None,
    {
        proof {
            self.lemma_null_never_live();
        }
        match self.table.get(ptr.addr) {
            Some(a) => Some(Arc::clone(a)),
            None => None,
        }
    }

    /// An immutable view of the pointee, bound to the borrow of the heap.
    pub fn as_ref<'h>(&'h self, ptr: BridgedPtr<'_, T, Shared>) -> (r: Option<&'h T>)
        ensures
            match r {
                Some(v) => self@.contains_key(ptr.addr()) && *v == self@[ptr.addr()],
                None => !self@.contains_key(ptr.addr()),
            },
            ptr.spec_is_null() ==> r is None,
    {
        proof {
            self.lemma_null_never_live();
        }
        match self.table.get(ptr.addr) {
            Some(a) => Some(&**a),
            None => None,
        }
    }

    /// Gives the strong reference behind an owned pointer back: imports it
    /// and drops it.
    pub fn free(&mut self, ptr: BridgedOwnedSharedPtr<T>)
        ensures
            Self::imported(*old(self), *final(self), ptr.addr(), lookup(old(self)@, ptr.addr())),
    {
        let _ = self.from_ptr(ptr);
    }

    pub fn null<'a>() -> (r: BridgedPtr<'a, T, Shared>)
        ensures
            r.spec_is_null(),
    {
        BridgedPtr::null()
    }

    pub fn is_null(ptr: &BridgedPtr<'_, T, Shared>) -> (r: bool)
        ensures
            r == ptr.spec_is_null(),
    {
        ptr.is_null()
    }
}

/// How a [`RefTable`] keeps a lent value reachable.
pub enum Lent<'a, T> {
    /// Borrowed from its true owner for `'a`.
    Borrowed(&'a T),
    /// Upgraded from a weak handle and pinned by the table.
    Pinned(Arc<T>),
}

impl<'a, T> Lent<'a, T> {
    pub open spec fn value(self) -> T {
        match self {
            Lent::Borrowed(r) => *r,
            Lent::Pinned(a) => *a,
        }
    }
}

/// The borrowed-only discipline for the values of one type.
///
/// Pointers lent out here are never freed by their holder: the values stay
/// owned elsewhere. A value reached through a weak handle is pinned by a
/// strong reference held in the table, so it cannot be released while the
/// table can still be asked for it.
pub struct RefTable<'a, T: RefFFI> {
    table: HandleTable<Lent<'a, T>>,
}

impl<'a, T: RefFFI> RefTable<'a, T> {
    /// The addresses lent out and the values behind them.
    pub closed spec fn view(&self) -> Map<usize, T> {
        self.table@.map_values(|l: Lent<'a, T>| l.value())
    }

    /// How many addresses have been handed out.
    pub closed spec fn issued(&self) -> nat {
        self.table.issued()
    }

    /// No value sits at the null address.
    pub proof fn lemma_null_never_live(&self)
        ensures
            !self@.contains_key(0),
    {
        self.table.lemma_live_handles_issued();
    }

    pub fn new() -> (r: Self)
        ensures
            r@ == Map::<usize, T>::empty(),
            r.issued() == 0,
    {
        let r = RefTable { table: HandleTable::new() };
        assert(r@ =~= Map::<usize, T>::empty());
        r
    }

    /// Lends `value` out: the pointer is valid as long as the borrow.
    pub fn as_ptr(&mut self, value: &'a T) -> (r: BridgedBorrowedSharedPtr<'a, T>)
        requires
            old(self).issued() < usize::MAX,
        ensures
            !r.spec_is_null(),
            r.addr() == old(self).issued() + 1,
            final(self).issued() == r.addr(),
            final(self)@ == old(self)@.insert(r.addr(), *value),
    {
        let a = self.table.insert(Lent::Borrowed(value));
        assert(self@ =~= old(self)@.insert(a, *value));
        BridgedPtr::from_raw(a)
    }

    /// Lends out the value behind a weak handle, given what upgrading the
    /// handle gave: `None` when the value had already been released, which
    /// yields a null pointer.
    pub fn weak_as_ptr(&mut self, upgraded: Option<Arc<T>>) -> (r: BridgedBorrowedSharedPtr<'a, T>)
        requires
            old(self).issued() < usize::MAX,
        ensures
            match upgraded {
                None => r.spec_is_null() && *final(self) == *old(self),
                Some(v) => {
                    &&& !r.spec_is_null()
                    &&& r.addr() == old(self).issued() + 1
                    &&& final(self).issued() == r.addr()
                    &&& final(self)@ == old(self)@.insert(r.addr(), *v)
                },
            },
    {
        match upgraded {
            None => BridgedPtr::null(),
            Some(v) => {
                let a = self.table.insert(Lent::Pinned(v));
                assert(self@ =~= old(self)@.insert(a, *upgraded->Some_0));
                BridgedPtr::from_raw(a)
            },
        }
    }

    /// An immutable view of the lent value, bound to the borrow of the table.
    pub fn as_ref<'h>(&'h self, ptr: BridgedPtr<'_, T, Shared>) -> (r: Option<&'h T>)
        ensures
            match r {
                Some(v) => self@.contains_key(ptr.addr()) && *v == self@[ptr.addr()],
                None => !self@.contains_key(ptr.addr()),
            },
            ptr.spec_is_null() ==> r is None,
    {
        proof {
            self.lemma_null_never_live();
        }
        match self.table.get(ptr.addr) {
            Some(Lent::Borrowed(v)) => Some(*v),
            Some(Lent::Pinned(a)) => Some(&**a),
            None => None,
        }
    }

    pub fn null<'b>() -> (r: BridgedPtr<'b, T, Shared>)
        ensures
            r.spec_is_null(),
    {
        BridgedPtr::null()
    }

    pub fn is_null(ptr: &BridgedPtr<'_, T, Shared>) -> (r: bool)
        ensures
            r == ptr.spec_is_null(),
    {
        ptr.is_null()
    }
}

/// Importing a value just exported through the shared-heap discipline gives
/// that value back, and the heap is left holding exactly the references it
/// held before the export; the address is then dead.
pub proof fn lemma_shared_import_after_export<T: ArcFFI>(
    h0: ArcHeap<T>,
    h1: ArcHeap<T>,
    h2: ArcHeap<T>,
    v: T,
    a: usize,
    r: Option<T>,
)
    requires
        ArcHeap::exported(h0, h1, v, a),
        ArcHeap::imported(h1, h2, a, r),
    ensures
        r == Some(v),
        h2@ == h0@,
        h2.retired(a),
{
    h0.lemma_null_never_live();
    assert(h2@ =~= h0@);
}

/// A strong reference cloned out of the shared heap, exported and then freed,
/// leaves the heap holding the same references, to the same values, as before
/// the clone: nothing leaks and nothing is released twice.
pub proof fn lemma_shared_clone_then_free<T: ArcFFI>(
    h0: ArcHeap<T>,
    h1: ArcHeap<T>,
    h2: ArcHeap<T>,
    p: usize,
    c: T,
    b: usize,
    r: Option<T>,
)
    requires
        h0@.contains_key(p),
        c == h0@[p],
        ArcHeap::exported(h0, h1, c, b),
        ArcHeap::imported(h1, h2, b, r),
    ensures
        r == Some(c),
        h1.count() == h0.count() + 1,
        h2.count() == h0.count(),
        h2@ == h0@,
        h2@.contains_key(p) && h2@[p] == c,
{
    lemma_shared_import_after_export(h0, h1, h2, c, b, r);
    ArcHeap::lemma_count_steps(h0, h1, c, b, r);
}

/// Freeing a value just exported through the exclusive-heap discipline
/// retires its address and leaves the other values as they were.
pub proof fn lemma_exclusive_free_after_export<T: BoxFFI>(
    h0: BoxHeap<T>,
    h1: BoxHeap<T>,
    h2: BoxHeap<T>,
    v: T,
    a: usize,
)
    requires
        BoxHeap::exported(h0, h1, v, a),
        BoxHeap::imported(h1, h2, a, lookup(h1@, a)),
    ensures
        lookup(h1@, a) == Some(v),
        h2.retired(a),
        h2@ == h0@,
{
    h0.lemma_null_never_live();
    assert(h2@ =~= h0@);
}

/// A retired exclusive address stays retired through every later export,
/// import or write, so nothing can ever be imported from it again.
pub proof fn lemma_exclusive_retired_stays_retired<T: BoxFFI>(
    pre: BoxHeap<T>,
    post: BoxHeap<T>,
    a: usize,
    v: T,
    b: usize,
    r: Option<T>,
)
    requires
        pre.retired(a),
        BoxHeap::exported(pre, post, v, b) || BoxHeap::imported(pre, post, b, r)
            || BoxHeap::written(pre, post, b, v),
    ensures
        post.retired(a),
        lookup(post@, a) is None,
{
}

/// Two live mutable reborrows of one pointer are rejected.
///
/// ```compile_fail,E0499
/// use csharp_wrapper::ffi::{BoxHeap, BridgedOwnedExclusivePtr, FromBox, FFI};
/// struct Foo;
/// impl FFI for Foo {
///     type Origin = FromBox;
/// }
///
/// let mut heap: BoxHeap<Foo> = BoxHeap::new();
/// let mut ptr: BridgedOwnedExclusivePtr<Foo> = heap.into_ptr(Box::new(Foo));
/// let first = ptr.borrow_mut();
/// let second = ptr.borrow_mut();
/// let _ = heap.as_mut_ref(second).is_some();
/// let _ = heap.as_mut_ref(first).is_some();
/// ```
fn _test_box_ffi_cannot_have_two_mutable_references() {
}

/// A mutable and an immutable reborrow of one pointer cannot both be live.
///
/// ```compile_fail,E0502
/// use csharp_wrapper::ffi::{BoxHeap, BridgedOwnedExclusivePtr, FromBox, FFI};
/// struct Foo;
/// impl FFI for Foo {
///     type Origin = FromBox;
/// }
///
/// let mut heap: BoxHeap<Foo> = BoxHeap::new();
/// let mut ptr: BridgedOwnedExclusivePtr<Foo> = heap.into_ptr(Box::new(Foo));
/// let writer = ptr.borrow_mut();
/// let reader = ptr.borrow();
/// let _ = heap.as_ref(reader).is_some();
/// let _ = heap.as_mut_ref(writer).is_some();
/// ```
fn _test_box_ffi_cannot_have_mutable_and_immutable_references_at_the_same_time() {
}

/// An exclusive pointer cannot be freed while a reborrow of it is live.
///
/// ```compile_fail,E0505
/// use csharp_wrapper::ffi::{BoxHeap, BridgedOwnedExclusivePtr, FromBox, FFI};
/// struct Foo;
/// impl FFI for Foo {
///     type Origin = FromBox;
/// }
///
/// let mut heap: BoxHeap<Foo> = BoxHeap::new();
/// let ptr: BridgedOwnedExclusivePtr<Foo> = heap.into_ptr(Box::new(Foo));
/// let borrowed = ptr.borrow();
/// heap.free(ptr);
/// let _ = heap.as_ref(borrowed).is_some();
/// ```
fn _test_box_ffi_cannot_free_while_having_borrowed_pointer() {
}

/// A shared pointer cannot be cloned from through a reborrow that outlives
/// the freeing of the owned pointer.
///
/// ```compile_fail,E0505
/// use csharp_wrapper::ffi::{ArcHeap, BridgedOwnedSharedPtr, FromArc, FFI};
/// use std::sync::Arc;
/// struct Foo;
/// impl FFI for Foo {
///     type Origin = FromArc;
/// }
///
/// let mut heap: ArcHeap<Foo> = ArcHeap::new();
/// let ptr: BridgedOwnedSharedPtr<Foo> = heap.into_ptr(Arc::new(Foo));
/// let borrowed = ptr.borrow();
/// heap.free(ptr);
/// let _ = heap.cloned_from_ptr(borrowed).is_some();
/// ```
fn _test_arc_ffi_cannot_clone_after_free() {
}

/// A borrowed pointer cannot be used after its owner is dropped.
///
/// ```compile_fail,E0505
/// use csharp_wrapper::ffi::{FromRef, RefTable, FFI};
/// struct Foo;
/// impl FFI for Foo {
///     type Origin = FromRef;
/// }
///
/// let owner = Foo;
/// let mut lent: RefTable<'_, Foo> = RefTable::new();
/// let borrowed = lent.as_ptr(&owner);
/// drop(owner);
/// let _ = lent.as_ref(borrowed).is_some();
/// ```
fn _test_arc_ffi_cannot_dereference_borrowed_after_drop() {
}

} // verus!
