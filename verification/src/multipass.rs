//! `VTFrameSilo` and `VTMultiPassStorage`: storage for multi-pass encoding.
//!
//! The frame silo collects the sample buffers a multi-pass compression
//! session produces so the encoder can iterate over them again; the
//! multi-pass storage holds the encoder's private per-pass scratch data.
//! Here: the handles and how each native status is reported.

use vstd::prelude::*;

use crate::error::{OSStatus, VTError};
use crate::session::{api_result, spec_api_result};
use crate::transfer::{create_result, spec_create_result};

verus! {

/// `VTFrameSiloRef`: keyed-by-PTS storage of encoded sample buffers. Holds
/// the address of the native silo.
pub struct FrameSilo {
    inner: usize,
}

impl View for FrameSilo {
    type V = usize;

    closed spec fn view(&self) -> usize {
        self.inner
    }
}

/// The message reported when more time ranges are given than a
/// `CMItemCount` can count.
pub open spec fn spec_range_overflow_message() -> Seq<char> {
    "time range count overflowed CMItemCount"@
}

impl FrameSilo {
    /// Adopts the silo handed back by `VTFrameSiloCreate`: it counts only
    /// when the status is `0` and the reference is non-NULL; otherwise
    /// [`VTError::SessionCreateFailed`].
    pub fn from_create(status: OSStatus, inner: usize) -> (r: Result<Self, VTError>)
        ensures
            r matches Ok(s) ==> spec_create_result(status, inner) == Ok::<usize, VTError>(s@),
            r matches Err(e) ==> spec_create_result(status, inner) == Err::<usize, VTError>(e),
    {
        match create_result(status, inner) {
            Ok(h) => Ok(Self { inner: h }),
            Err(e) => Err(e),
        }
    }

    /// Raw `VTFrameSiloRef`, as an address.
    pub fn as_ptr(&self) -> (r: usize)
        ensures
            r == self@,
    {
        self.inner
    }

    /// Result of `VTFrameSiloAddSampleBuffer` and
    /// `VTFrameSiloGetProgressOfCurrentPass`: success on `0`, otherwise
    /// [`VTError::EncodeFailed`].
    pub fn status_result(status: OSStatus) -> (r: Result<(), VTError>)
        ensures
            status == 0 ==> r is Ok,
            status != 0 ==> r == Err::<(), VTError>(VTError::EncodeFailed(status)),
    {
        if status == 0 {
            Ok(())
        } else {
            Err(VTError::EncodeFailed(status))
        }
    }

    /// The `CMItemCount` handed to `VTFrameSiloSetTimeRangesForNextPass` for
    /// `len` time ranges; [`VTError::InvalidArgument`] when `len` does not
    /// fit.
    pub fn time_range_item_count(len: usize) -> (r: Result<isize, VTError>)
        ensures
            len <= isize::MAX <==> r is Ok,
            r matches Ok(n) ==> n == len,
            r matches Err(e) ==> (e matches VTError::InvalidArgument(m) && m@
                == spec_range_overflow_message()),
    {
        if len <= isize::MAX as usize {
            Ok(len as isize)
        } else {
            Err(VTError::InvalidArgument("time range count overflowed CMItemCount".to_owned()))
        }
    }

    /// Result of `VTFrameSiloSetTimeRangesForNextPass`.
    pub fn set_time_ranges_result(status: OSStatus) -> (r: Result<(), VTError>)
        ensures
            r == spec_api_result("VTFrameSiloSetTimeRangesForNextPass", status),
    {
        api_result("VTFrameSiloSetTimeRangesForNextPass", status)
    }

    /// Result of `VTFrameSiloCallFunctionForEachSampleBuffer`: the buffers
    /// collected on success.
    pub fn sample_buffers_result<T>(status: OSStatus, samples: Vec<T>) -> (r: Result<
        Vec<T>,
        VTError,
    >)
        ensures
            status == 0 ==> (r matches Ok(v) && v@ == samples@),
            status != 0 ==> r == Err::<Vec<T>, VTError>(
                VTError::ApiFailed { api: "VTFrameSiloCallFunctionForEachSampleBuffer", status },
            ),
    {
        if status == 0 {
            Ok(samples)
        } else {
            Err(VTError::ApiFailed { api: "VTFrameSiloCallFunctionForEachSampleBuffer", status })
        }
    }
}

/// `VTMultiPassStorageRef`: opaque encoder scratch storage for multi-pass
/// encoding. Holds the address of the native storage.
pub struct MultiPassStorage {
    inner: usize,
}

impl View for MultiPassStorage {
    type V = usize;

    closed spec fn view(&self) -> usize {
        self.inner
    }
}

impl MultiPassStorage {
    /// Adopts the storage handed back by `VTMultiPassStorageCreate`: it
    /// counts only when the status is `0` and the reference is non-NULL;
    /// otherwise [`VTError::SessionCreateFailed`].
    pub fn from_create(status: OSStatus, inner: usize) -> (r: Result<Self, VTError>)
        ensures
            r matches Ok(s) ==> spec_create_result(status, inner) == Ok::<usize, VTError>(s@),
            r matches Err(e) ==> spec_create_result(status, inner) == Err::<usize, VTError>(e),
    {
        match create_result(status, inner) {
            Ok(h) => Ok(Self { inner: h }),
            Err(e) => Err(e),
        }
    }

    /// Raw `VTMultiPassStorageRef`, as an address; it is what
    /// `kVTCompressionPropertyKey_MultiPassStorage` is set to.
    pub fn as_ptr(&self) -> (r: usize)
        ensures
            r == self@,
    {
        self.inner
    }

    /// Result of `VTMultiPassStorageClose`.
    pub fn close_result(status: OSStatus) -> (r: Result<(), VTError>)
        ensures
            r == spec_api_result("VTMultiPassStorageClose", status),
    {
        api_result("VTMultiPassStorageClose", status)
    }
}

} // verus!
