//! `VTUtilities` helpers: how converting a pixel buffer into a `CGImage`
//! reports its outcome.

use vstd::prelude::*;

use crate::error::{OSStatus, VTError};

verus! {

/// Result of `VTCreateCGImageFromCVPixelBuffer`: the image counts only when
/// the status is `0` and the image is non-NULL; otherwise
/// [`VTError::EncodeFailed`] with the status.
pub fn cg_image_result(status: OSStatus, image: usize) -> (r: Result<usize, VTError>)
    ensures
        (status == 0 && image != 0) <==> r is Ok,
        r matches Ok(i) ==> i == image,
        r matches Err(e) ==> e == VTError::EncodeFailed(status),
{
    if status != 0 || image == 0 {
        return Err(VTError::EncodeFailed(status));
    }
    Ok(image)
}

} // verus!
