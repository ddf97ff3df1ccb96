//! Raw-handle extraction for native API objects.
//!
//! Synchronization primitives are handed to the native API by plain
//! integer handles. These traits expose the handle of a wrapper object,
//! and the helpers collect the handles of a whole slice, as submission
//! and wait calls expect them.

use vstd::prelude::*;

verus! {

/// A wrapper object that exposes a raw native handle.
pub trait VkRawHandle {
    type Handle;

    /// The handle seen in specifications.
    spec fn spec_raw_handle(&self) -> Self::Handle;

    fn raw_handle(&self) -> (handle: Self::Handle)
        ensures
            handle == self.spec_raw_handle(),
    ;
}

/// A wrapper object that can be viewed as a raw native handle.
pub trait AsRawHandle {
    type Handle;

    /// The handle seen in specifications.
    spec fn spec_as_raw_handle(&self) -> Self::Handle;

    fn as_raw_handle(&self) -> (handle: Self::Handle)
        ensures
            handle == self.spec_as_raw_handle(),
    ;
}

/// Collect the raw handles of every object in the slice, in order.
pub fn to_raw_handles<T: VkRawHandle>(slice: &[&T]) -> (handles: Vec<T::Handle>)
    ensures
        handles@.len() == slice@.len(),
        forall|i: int| 0 <= i < slice@.len() ==> handles@[i] == slice@[i].spec_raw_handle(),
{
    let mut handles: Vec<T::Handle> = Vec::new();
    let mut k: usize = 0;
    while k < slice.len()
        invariant
            k <= slice@.len(),
            handles@.len() == k,
            forall|i: int| 0 <= i < k ==> handles@[i] == slice@[i].spec_raw_handle(),
        decreases slice@.len() - k,
    {
        handles.push(slice[k].raw_handle());
        k = k + 1;
    }
    handles
}

/// Collect the raw handles of every object in the slice, in order.
pub fn as_raw_handles<T: AsRawHandle>(slice: &[T]) -> (handles: Vec<T::Handle>)
    ensures
        handles@.len() == slice@.len(),
        forall|i: int| 0 <= i < slice@.len() ==> handles@[i] == slice@[i].spec_as_raw_handle(),
{
    let mut handles: Vec<T::Handle> = Vec::new();
    let mut k: usize = 0;
    while k < slice.len()
        invariant
            k <= slice@.len(),
            handles@.len() == k,
            forall|i: int| 0 <= i < k ==> handles@[i] == slice@[i].spec_as_raw_handle(),
        decreases slice@.len() - k,
    {
        handles.push(slice[k].as_raw_handle());
        k = k + 1;
    }
    handles
}

} // verus!
