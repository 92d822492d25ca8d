//! `VTMotionEstimationSession`: between-frame motion-vector estimation
//! (macOS 26+). Here: the creation options and their validation, the session
//! handle, and how each native status is reported.

use vstd::prelude::*;

use crate::error::{OSStatus, VTError};
use crate::compression::opt_seq;
use crate::ffi;
use crate::session::{CFValue, DictionaryEntry};
use crate::transfer::{create_result, spec_create_result};

verus! {

/// Creation-time options for `VTMotionEstimationSessionCreate`.
#[derive(Debug, Clone, PartialEq, Eq)]
pub struct MotionEstimationSessionOptions {
    pub motion_vector_size: Option<u32>,
    pub use_multi_pass_search: bool,
    pub label: Option<String>,
}

impl Default for MotionEstimationSessionOptions {
    /// No option set: the framework chooses.
    fn default() -> (r: Self)
        ensures
            r.motion_vector_size is None,
            !r.use_multi_pass_search,
            r.label is None,
    {
        MotionEstimationSessionOptions {
            motion_vector_size: None,
            use_multi_pass_search: false,
            label: None,
        }
    }
}

/// The message reported for a motion-vector size other than 4 or 16.
pub open spec fn spec_vector_size_message() -> Seq<char> {
    "motion_vector_size must be either 4 or 16"@
}

/// Whether the options ask for a motion-vector size the framework cannot
/// produce (only 4 and 16 are accepted).
pub open spec fn spec_bad_vector_size(o: MotionEstimationSessionOptions) -> bool {
    o.motion_vector_size matches Some(size) && size != 4 && size != 16
}

/// The entry for the motion-vector size, when one is asked for.
pub open spec fn spec_size_entry(o: MotionEstimationSessionOptions) -> Seq<DictionaryEntry> {
    match o.motion_vector_size {
        Some(size) => seq![
            (ffi::kVTMotionEstimationSessionCreationOption_MotionVectorSize, CFValue::UInt64(size as u64)),
        ],
        None => Seq::empty(),
    }
}

/// The entry asking for multi-pass search, when it is asked for.
pub open spec fn spec_multi_pass_entry(o: MotionEstimationSessionOptions) -> Seq<DictionaryEntry> {
    if o.use_multi_pass_search {
        seq![
            (ffi::kVTMotionEstimationSessionCreationOption_UseMultiPassSearch, CFValue::Boolean(true)),
        ]
    } else {
        Seq::empty()
    }
}

/// The entry carrying the session's label, when one is given.
pub open spec fn spec_label_entry(o: MotionEstimationSessionOptions) -> Seq<DictionaryEntry> {
    match o.label {
        Some(l) => seq![(ffi::kVTMotionEstimationSessionCreationOption_Label, CFValue::String(l))],
        None => Seq::empty(),
    }
}

/// The creation options the options give: one entry per option set, in the
/// order size, multi-pass search, label; none at all when no option is set.
pub open spec fn spec_creation_options(o: MotionEstimationSessionOptions) -> Option<
    Seq<DictionaryEntry>,
> {
    let entries = spec_size_entry(o) + spec_multi_pass_entry(o) + spec_label_entry(o);
    if entries.len() == 0 {
        None
    } else {
        Some(entries)
    }
}

/// Builds the creation options for `VTMotionEstimationSessionCreate`.
///
/// A motion-vector size other than 4 or 16 is refused with
/// [`VTError::InvalidArgument`].
pub fn build_creation_options(options: &MotionEstimationSessionOptions) -> (r: Result<
    Option<Vec<DictionaryEntry>>,
    VTError,
>)
    ensures
        spec_bad_vector_size(*options) <==> r is Err,
        r matches Err(e) ==> (e matches VTError::InvalidArgument(m) && m@
            == spec_vector_size_message()),
        r matches Ok(opts) ==> opt_seq(opts) == spec_creation_options(*options),
{
    if let Some(size) = options.motion_vector_size {
        if !(size == 4 || size == 16) {
            return Err(
                VTError::InvalidArgument("motion_vector_size must be either 4 or 16".to_owned()),
            );
        }
    }
    let mut entries: Vec<DictionaryEntry> = Vec::new();
    if let Some(size) = options.motion_vector_size {
        entries.push(
            (
                ffi::kVTMotionEstimationSessionCreationOption_MotionVectorSize,
                CFValue::UInt64(size as u64),
            ),
        );
    }
    if options.use_multi_pass_search {
        entries.push(
            (ffi::kVTMotionEstimationSessionCreationOption_UseMultiPassSearch, CFValue::Boolean(true)),
        );
    }
    assert(entries@ =~= spec_size_entry(*options) + spec_multi_pass_entry(*options));
    match &options.label {
        Some(label) => {
            entries.push(
                (ffi::kVTMotionEstimationSessionCreationOption_Label, CFValue::String(label.clone())),
            );
        },
        None => {},
    }
    assert(entries@ =~= spec_size_entry(*options) + spec_multi_pass_entry(*options)
        + spec_label_entry(*options));
    if entries.len() == 0 {
        return Ok(None);
    }
    Ok(Some(entries))
}

/// `VTMotionEstimationSessionRef`. Holds the address of the native session.
pub struct MotionEstimationSession {
    inner: usize,
}

impl View for MotionEstimationSession {
    type V = usize;

    closed spec fn view(&self) -> usize {
        self.inner
    }
}

/// Whether `r` is what adopting the session a creation call reported gives:
/// the session when the status is `0` and the reference non-NULL, otherwise
/// [`VTError::SessionCreateFailed`] with the status.
pub open spec fn spec_adopted(r: Result<MotionEstimationSession, VTError>, status: OSStatus, handle: usize) -> bool {
    match r {
        Ok(s) => spec_create_result(status, handle) == Ok::<usize, VTError>(s@),
        Err(e) => spec_create_result(status, handle) == Err::<usize, VTError>(e),
    }
}

impl MotionEstimationSession {
    /// Adopts the session handed back by `VTMotionEstimationSessionCreate`:
    /// it counts only when the status is `0` and the reference is non-NULL;
    /// otherwise [`VTError::SessionCreateFailed`].
    pub fn from_create(status: OSStatus, inner: usize) -> (r: Result<Self, VTError>)
        ensures
            r matches Ok(s) ==> spec_create_result(status, inner) == Ok::<usize, VTError>(s@),
            r matches Err(e) ==> spec_create_result(status, inner) == Err::<usize, VTError>(e),
    {
        match create_result(status, inner) {
            Ok(h) => Ok(Self { inner: h }),
            Err(e) => Err(e),
        }
    }

    /// A session for `width` x `height` buffers with explicit options.
    /// `create` makes the native call (`VTMotionEstimationSessionCreate`)
    /// with the creation options and the size, and reports its status and
    /// the session it handed back. A motion-vector size other than 4 or 16
    /// is refused before any native call.
    pub fn new_with_options<F>(
        width: u32,
        height: u32,
        options: &MotionEstimationSessionOptions,
        create: F,
    ) -> (r: Result<Self, VTError>) where
        F: FnOnce(Option<Vec<DictionaryEntry>>, u32, u32) -> (OSStatus, usize),

        requires
            forall|o: Option<Vec<DictionaryEntry>>| create.requires((o, width, height)),
        ensures
            spec_bad_vector_size(*options) ==> (r matches Err(e) && (e matches VTError::InvalidArgument(
                m,
            ) && m@ == spec_vector_size_message())),
            !spec_bad_vector_size(*options) ==> exists|
                opts: Option<Vec<DictionaryEntry>>,
                out: (OSStatus, usize),
            |
                #![trigger create.ensures((opts, width, height), out)]
                create.ensures((opts, width, height), out) && opt_seq(opts)
                    == spec_creation_options(*options) && spec_adopted(r, out.0, out.1),
    {
        let opts = match build_creation_options(options) {
            Ok(opts) => opts,
            Err(e) => {
                return Err(e);
            },
        };
        let ghost handed = opts;
        let out = create(opts, width, height);
        let r = Self::from_create(out.0, out.1);
        assert(create.ensures((handed, width, height), out));
        r
    }

    /// A session for `width` x `height` buffers with default options (none
    /// set); `create` makes the native call, as for
    /// [`Self::new_with_options`].
    pub fn new<F>(width: u32, height: u32, create: F) -> (r: Result<Self, VTError>) where
        F: FnOnce(Option<Vec<DictionaryEntry>>, u32, u32) -> (OSStatus, usize),

        requires
            forall|o: Option<Vec<DictionaryEntry>>| create.requires((o, width, height)),
        ensures
            exists|opts: Option<Vec<DictionaryEntry>>, out: (OSStatus, usize)|
                #![trigger create.ensures((opts, width, height), out)]
                create.ensures((opts, width, height), out) && opts is None && spec_adopted(
                    r,
                    out.0,
                    out.1,
                ),
    {
        let defaults = MotionEstimationSessionOptions::default();
        let r = Self::new_with_options(width, height, &defaults, create);
        proof {
            let ghost o = defaults;
            assert(spec_creation_options(o) is None) by {
                assert((spec_size_entry(o) + spec_multi_pass_entry(o) + spec_label_entry(o)).len()
                    == 0);
            }
        }
        r
    }

    /// Raw `VTMotionEstimationSessionRef`, as an address.
    pub fn as_ptr(&self) -> (r: usize)
        ensures
            r == self@,
    {
        self.inner
    }

    /// Result of a status-only call on the session
    /// (`CompleteFrames`, `CopySourcePixelBufferAttributes`): success on `0`,
    /// otherwise [`VTError::EncodeFailed`].
    pub fn status_result(status: OSStatus) -> (r: Result<(), VTError>)
        ensures
            status == 0 ==> r is Ok,
            status != 0 ==> r == Err::<(), VTError>(VTError::EncodeFailed(status)),
    {
        if status == 0 {
            Ok(())
        } else {
            Err(VTError::EncodeFailed(status))
        }
    }

    /// Result of one estimation: the motion-vector buffer counts only when
    /// the status is `0` and the buffer is non-NULL; otherwise
    /// [`VTError::EncodeFailed`] with the status.
    pub fn estimate_result(status: OSStatus, motion_vectors: usize) -> (r: Result<usize, VTError>)
        ensures
            (status == 0 && motion_vectors != 0) <==> r is Ok,
            r matches Ok(p) ==> p == motion_vectors,
            r matches Err(e) ==> e == VTError::EncodeFailed(status),
    {
        if status != 0 || motion_vectors == 0 {
            return Err(VTError::EncodeFailed(status));
        }
        Ok(motion_vectors)
    }
}

} // verus!
