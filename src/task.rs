use vstd::prelude::*;
use std::sync::Arc;
use vstd::string::StringSliceAdditionalSpecFns;
use crate::FfiPtr;
use crate::ffi::{ArcFFI, ArcHeap, BridgedOwnedSharedPtr, Opaque, lemma_shared_import_after_export};

verus! {

/// The foreign completion handle waiting for a task's outcome.
pub struct Tcs {
    _private: (),
}

/// A pointer to the foreign completion handle.
pub struct TcsPtr(pub FfiPtr<'static, Tcs>);

/// Task Control Block: the foreign completion handle together with the two
/// foreign callbacks, `complete` and `fail`. It is consumed by
/// [`Tcb::settle`], which hands out exactly one of the two callbacks.
pub struct Tcb<C, F> {
    pub tcs: TcsPtr,
    pub complete_task: C,
    pub fail_task: F,
}

/// How a unit of work settled.
pub enum Settlement<T> {
    /// It produced a value.
    Completed(T),
    /// It produced a domain error, given as its formatted text.
    Failed(Vec<u8>),
    /// It panicked; the payload's text when the payload was a string.
    Panicked(Option<Vec<u8>>),
}

/// The one report owed to the foreign side for a task.
pub enum Report<C, F> {
    /// Call `complete_task(tcs, result)`.
    Complete { tcs: TcsPtr, complete_task: C, result: BridgedOwnedSharedPtr<Opaque> },
    /// Call `fail_task(tcs, message)`, `message` being a C string without its
    /// terminator.
    Fail { tcs: TcsPtr, fail_task: F, message: Vec<u8> },
}

/// The message reported for a panic whose payload is not a string.
pub open spec fn fallback_message() -> Seq<u8> {
    "Weird panic with non-string payload".spec_bytes()
}

/// `r` is what a C reader sees of `s`: `s` up to its first NUL byte.
pub open spec fn is_c_text_of(r: Seq<u8>, s: Seq<u8>) -> bool {
    &&& r.len() <= s.len()
    &&& r == s.take(r.len() as int)
    &&& forall|j: int| 0 <= j < r.len() ==> r[j] != 0
    &&& (r.len() == s.len() || s[r.len() as int] == 0)
}

/// `s` holds no NUL byte.
pub open spec fn nul_free(s: Seq<u8>) -> bool {
    forall|j: int| 0 <= j < s.len() ==> s[j] != 0
}

/// A text without NUL bytes is read back by C unchanged.
pub proof fn lemma_c_text_of_nul_free(r: Seq<u8>, s: Seq<u8>)
    requires
        nul_free(s),
        is_c_text_of(r, s),
    ensures
        r == s,
{
    assert(r =~= s);
}

/// The part of `s` that a C reader sees: everything before the first NUL.
pub fn c_text(s: &Vec<u8>) -> (r: Vec<u8>)
    ensures
        is_c_text_of(r@, s@),
{
    let mut r: Vec<u8> = Vec::new();
    let mut i: usize = 0;
    while i < s.len() && s[i] != 0
        invariant
            i <= s.len(),
            r@ == s@.take(i as int),
            forall|j: int| 0 <= j < i ==> s@[j] != 0,
        decreases s.len() - i,
    {
        r.push(s[i]);
        i = i + 1;
        assert(r@ =~= s@.take(i as int));
    }
    r
}

/// The message reported for a panic: the payload's text, or a generic
/// message when the payload was not a string.
pub fn panic_message(payload: Option<Vec<u8>>) -> (r: Vec<u8>)
    ensures
        r@ == match payload {
            Some(text) => text@,
            None => fallback_message(),
        },
{
    match payload {
        Some(text) => text,
        None => vstd::slice::slice_to_vec("Weird panic with non-string payload".as_bytes()),
    }
}

impl<C, F> Tcb<C, F> {
    /// Decides the single report for a settled task. A value is exported
    /// through the shared-heap discipline and handed to `complete`; an error
    /// or a panic becomes the message handed to `fail`.
    pub fn settle<T: ArcFFI + 'static>(self, heap: &mut ArcHeap<T>, outcome: Settlement<T>) -> (r: Report<C, F>)
        requires
            old(heap).issued() < usize::MAX,
        ensures
            match outcome {
                Settlement::Completed(v) => match r {
                    Report::Complete { tcs, complete_task, result } => {
                        &&& tcs == self.tcs
                        &&& complete_task == self.complete_task
                        &&& ArcHeap::exported(*old(heap), *final(heap), v, result.addr())
                        &&& !result.spec_is_null()
                    },
                    Report::Fail { .. } => false,
                },
                Settlement::Failed(text) => match r {
                    Report::Fail { tcs, fail_task, message } => {
                        &&& tcs == self.tcs
                        &&& fail_task == self.fail_task
                        &&& is_c_text_of(message@, text@)
                        &&& nul_free(text@) ==> message@ == text@
                        &&& *final(heap) == *old(heap)
                    },
                    Report::Complete { .. } => false,
                },
                Settlement::Panicked(payload) => match r {
                    Report::Fail { tcs, fail_task, message } => {
                        &&& tcs == self.tcs
                        &&& fail_task == self.fail_task
                        &&& is_c_text_of(
                            message@,
                            match payload {
                                Some(text) => text@,
                                None => fallback_message(),
                            },
                        )
                        &&& payload is Some && nul_free(payload->Some_0@) ==> message@
                            == payload->Some_0@
                        &&& *final(heap) == *old(heap)
                    },
                    Report::Complete { .. } => false,
                },
            },
    {
        let Tcb { tcs, complete_task, fail_task } = self;
        match outcome {
            Settlement::Completed(v) => {
                let ptr = heap.into_ptr(Arc::new(v));
                Report::Complete { tcs, complete_task, result: ptr.cast_to_void() }
            },
            Settlement::Failed(text) => {
                let message = c_text(&text);
                proof {
                    if nul_free(text@) {
                        lemma_c_text_of_nul_free(message@, text@);
                    }
                }
                Report::Fail { tcs, fail_task, message }
            },
            Settlement::Panicked(payload) => {
                let text = panic_message(payload);
                let message = c_text(&text);
                proof {
                    if nul_free(text@) {
                        lemma_c_text_of_nul_free(message@, text@);
                    }
                }
                Report::Fail { tcs, fail_task, message }
            },
        }
    }
}

/// The result pointer of a completed task imports back to the task's value,
/// and only once: a second import of the same address finds nothing.
pub proof fn lemma_completion_imports_back_once<T: ArcFFI>(
    h0: ArcHeap<T>,
    h1: ArcHeap<T>,
    h2: ArcHeap<T>,
    h3: ArcHeap<T>,
    v: T,
    a: usize,
    first: Option<T>,
    second: Option<T>,
)
    requires
        ArcHeap::exported(h0, h1, v, a),
        ArcHeap::imported(h1, h2, a, first),
        ArcHeap::imported(h2, h3, a, second),
    ensures
        first == Some(v),
        second is None,
{
    lemma_shared_import_after_export(h0, h1, h2, v, a, first);
}

} // verus!
