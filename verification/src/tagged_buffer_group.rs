//! `CMTaggedBufferGroupRef`: multi-image encode and decode entry points take
//! or return groups that bundle several pixel or sample buffers into one
//! logical frame (for example the two eyes of a stereo MV-HEVC frame).

use vstd::prelude::*;

verus! {

/// An owned `CMTaggedBufferGroupRef`: the address of the native group and the
/// number of buffers it holds (a group is immutable once made).
pub struct TaggedBufferGroup {
    inner: usize,
    count: isize,
}

/// The number of buffers a `CMItemCount` reports; a negative count reads as
/// none.
pub open spec fn spec_item_count(count: isize) -> nat {
    if count < 0 {
        0
    } else {
        count as nat
    }
}

impl TaggedBufferGroup {
    /// Address of the native group.
    pub closed spec fn spec_ptr(&self) -> usize {
        self.inner
    }

    /// The count `CMTaggedBufferGroupGetCount` reported for the group.
    pub closed spec fn spec_count(&self) -> isize {
        self.count
    }

    /// Adopts a retained group together with its `CMTaggedBufferGroupGetCount`;
    /// a NULL address gives `None`.
    pub fn from_raw(ptr: usize, count: isize) -> (r: Option<Self>)
        ensures
            ptr == 0 <==> r is None,
            r matches Some(g) ==> g.spec_ptr() == ptr && g.spec_count() == count,
    {
        if ptr == 0 {
            None
        } else {
            Some(Self { inner: ptr, count })
        }
    }

    /// Borrow the raw `CMTaggedBufferGroupRef`, as an address.
    pub fn as_ptr(&self) -> (r: usize)
        ensures
            r == self.spec_ptr(),
    {
        self.inner
    }

    /// Number of buffers in the group.
    pub fn len(&self) -> (r: usize)
        ensures
            r == spec_item_count(self.spec_count()),
    {
        if self.count < 0 {
            0
        } else {
            self.count as usize
        }
    }

    /// Whether the group is empty.
    pub fn is_empty(&self) -> (r: bool)
        ensures
            r <==> spec_item_count(self.spec_count()) == 0,
    {
        self.len() == 0
    }

    /// The `CMItemIndex` for entry `index`, when it fits one.
    pub fn item_index(index: usize) -> (r: Option<isize>)
        ensures
            index <= isize::MAX <==> r is Some,
            r matches Some(i) ==> i == index,
    {
        if index <= isize::MAX as usize {
            Some(index as isize)
        } else {
            None
        }
    }
}

} // verus!
