//! `VTRAWProcessingSession` (`ProRes` RAW / `CinemaDNG`, macOS 15+): the
//! parameter-change handler's install/clear transitions, the one-at-a-time
//! invocation of the handler, the parameter records, and how each native
//! status is reported.

use vstd::prelude::*;

use crate::decompression::spec_async_status;
use crate::error::{OSStatus, VTError};
use crate::session::spec_present_entries;

verus! {

/// The status the bridge reports when a blocking call gave up waiting: the
/// four-character code `'vtto'`.
pub const VTB_TIMED_OUT: i32 = 0x7674_746f;

/// The parameter-change handler currently installed on a session, as far as
/// this side knows it.
pub struct HandlerSlot<T> {
    current: Option<T>,
}

impl<T> HandlerSlot<T> {
    /// The handler that is installed.
    pub closed spec fn spec_current(&self) -> Option<T> {
        self.current
    }

    /// A slot with no handler installed.
    pub fn new() -> (r: Self)
        ensures
            r.spec_current() is None,
    {
        Self { current: None }
    }

    /// The handler that is installed, if any.
    pub fn current(&self) -> (r: Option<&T>)
        ensures
            r is None <==> self.spec_current() is None,
            r matches Some(h) ==> self.spec_current() == Some(*h),
    {
        self.current.as_ref()
    }

    /// Whether a handler is installed.
    pub fn is_installed(&self) -> (r: bool)
        ensures
            r == self.spec_current() is Some,
    {
        self.current.is_some()
    }

    /// Records the outcome of asking the framework to switch to `next` (a
    /// new handler, or `None` to clear). The switch counts only when the
    /// framework accepted it (`status == 0`): then `next` becomes current
    /// and the previous handler is handed back as `Some(previous)` to be
    /// retired. On refusal the current handler stays, `next` is dropped,
    /// and `None` comes back.
    pub fn transition(&mut self, next: Option<T>, status: OSStatus) -> (retired: Option<
        Option<T>,
    >)
        ensures
            status == 0 ==> final(self).spec_current() == next && retired == Some(
                old(self).spec_current(),
            ),
            status != 0 ==> final(self).spec_current() == old(self).spec_current() && retired
                is None,
    {
        if status == 0 {
            let previous = self.current.take();
            self.current = next;
            Some(previous)
        } else {
            None
        }
    }
}

/// Outcome of installing or clearing the parameter-change handler.
pub fn handler_update_result(status: OSStatus) -> (r: Result<(), VTError>)
    ensures
        status == 0 ==> r is Ok,
        status != 0 ==> r == Err::<(), VTError>(
            VTError::ApiFailed { api: "VTRAWProcessingSessionSetParameterChangedHandler", status },
        ),
{
    if status != 0 {
        return Err(
            VTError::ApiFailed { api: "VTRAWProcessingSessionSetParameterChangedHandler", status },
        );
    }
    Ok(())
}

/// What one delivery of a parameter change does, given the invocation
/// state and the delivering thread.
#[derive(Debug, Clone, Copy, PartialEq, Eq, Structural)]
pub enum StepKind {
    /// The handler is free: this thread takes it and runs it.
    Run,
    /// This very thread is already running the handler (the handler caused
    /// another change): the delivery is skipped.
    Reentrant,
    /// Another thread is running the handler: wait until it is handed back.
    Wait,
}

/// The step a delivery on `thread` takes when the handler is (or is not)
/// free and `owner` is the thread running it.
pub open spec fn spec_step(available: bool, owner: Option<u64>, thread: u64) -> StepKind {
    if available {
        StepKind::Run
    } else if owner == Some(thread) {
        StepKind::Reentrant
    } else {
        StepKind::Wait
    }
}

/// The outcome of [`ParameterChangedInvocation::begin`].
pub enum InvocationStep<F> {
    /// Run this handler, then hand it back with `finish`.
    Run(F),
    /// Skip this delivery: it was raised from inside the handler itself.
    Reentrant,
    /// Wait until the handler is handed back, then begin again.
    Wait,
}

/// The handler of one installed parameter-change context and the thread
/// running it, if any. The handler is either free (and nobody runs it) or
/// taken by exactly one thread.
pub struct ParameterChangedInvocation<F> {
    callback: Option<F>,
    owner: Option<u64>,
}

impl<F> ParameterChangedInvocation<F> {
    /// The handler, when it is free.
    pub closed spec fn spec_callback(&self) -> Option<F> {
        self.callback
    }

    /// The thread running the handler, if any.
    pub closed spec fn spec_owner(&self) -> Option<u64> {
        self.owner
    }

    #[verifier::type_invariant]
    spec fn free_or_owned(&self) -> bool {
        self.callback is Some <==> self.owner is None
    }

    /// A context whose handler is free.
    pub fn new(callback: F) -> (r: Self)
        ensures
            r.spec_callback() == Some(callback),
            r.spec_owner() is None,
    {
        Self { callback: Some(callback), owner: None }
    }

    /// The thread running the handler, if any.
    pub fn owner(&self) -> (r: Option<u64>)
        ensures
            r == self.spec_owner(),
            r is None <==> self.spec_callback() is Some,
    {
        proof {
            use_type_invariant(self);
        }
        self.owner
    }

    /// Begins one delivery on `thread`: takes the handler when it is free,
    /// skips a delivery raised by the running handler itself, and otherwise
    /// asks the caller to wait.
    pub fn begin(&mut self, thread: u64) -> (r: InvocationStep<F>)
        ensures
            (match r {
                InvocationStep::Run(_) => StepKind::Run,
                InvocationStep::Reentrant => StepKind::Reentrant,
                InvocationStep::Wait => StepKind::Wait,
            }) == spec_step(old(self).spec_callback() is Some, old(self).spec_owner(), thread),
            old(self).spec_callback() matches Some(cb) ==> r == InvocationStep::Run(cb)
                && final(self).spec_callback() is None && final(self).spec_owner() == Some(thread),
            old(self).spec_callback() is None ==> final(self).spec_callback()
                == old(self).spec_callback() && final(self).spec_owner() == old(self).spec_owner(),
    {
        proof {
            use_type_invariant(&*self);
        }
        if self.callback.is_some() {
            let mut previous = Self { callback: None, owner: Some(thread) };
            std::mem::swap(self, &mut previous);
            match previous.callback {
                Some(cb) => InvocationStep::Run(cb),
                None => InvocationStep::Wait,
            }
        } else {
            let reentrant = match self.owner {
                Some(t) => t == thread,
                None => false,
            };
            if reentrant {
                InvocationStep::Reentrant
            } else {
                InvocationStep::Wait
            }
        }
    }

    /// Hands the handler back after it ran: it is free again and nobody
    /// owns it.
    pub fn finish(&mut self, callback: F)
        ensures
            final(self).spec_callback() == Some(callback),
            final(self).spec_owner() is None,
    {
        *self = Self { callback: Some(callback), owner: None };
    }
}

/// While a thread runs the handler, a change raised on that same thread is
/// skipped rather than waited for (so a handler that triggers a change
/// cannot deadlock on itself), and no other thread can start the handler.
pub proof fn lemma_running_handler_is_exclusive(owner: u64, other: u64)
    ensures
        spec_step(false, Some(owner), owner) == StepKind::Reentrant,
        other != owner ==> spec_step(false, Some(owner), other) == StepKind::Wait,
{
}

/// Once the handler is handed back, the next delivery on any thread runs it.
pub proof fn lemma_finished_handler_runs_next(thread: u64)
    ensures
        spec_step(true, None, thread) == StepKind::Run,
{
}

/// A single RAW-processing parameter descriptor: the address of the
/// `CFDictionary` the session reported.
pub struct RawProcessingParameter {
    dict: usize,
}

impl View for RawProcessingParameter {
    type V = usize;

    closed spec fn view(&self) -> usize {
        self.dict
    }
}

impl RawProcessingParameter {
    /// Raw `CFDictionaryRef`, as an address.
    pub fn as_ptr(&self) -> (r: usize)
        ensures
            r == self@,
    {
        self.dict
    }
}

/// The parameters reported in a `CFArray`, given the addresses of its
/// entries: NULL entries are skipped, the order is kept.
pub fn parameters_from_entries(entries: &Vec<usize>) -> (r: Vec<RawProcessingParameter>)
    ensures
        r@.map_values(|p: RawProcessingParameter| p@) == spec_present_entries(entries@),
{
    let mut out: Vec<RawProcessingParameter> = Vec::new();
    let mut i: usize = 0;
    while i < entries.len()
        invariant
            i <= entries@.len(),
            out@.map_values(|p: RawProcessingParameter| p@) == spec_present_entries(
                entries@.take(i as int),
            ),
        decreases entries@.len() - i,
    {
        let dict = entries[i];
        let ghost before = out@;
        if dict != 0 {
            out.push(RawProcessingParameter { dict });
            assert(out@.map_values(|p: RawProcessingParameter| p@) =~= before.map_values(
                |p: RawProcessingParameter| p@,
            ).push(dict));
        }
        assert(entries@.take(i + 1).drop_last() =~= entries@.take(i as int));
        i = i + 1;
    }
    assert(entries@.take(i as int) =~= entries@);
    out
}

/// Result of a status-only call on the session (`CompleteFrames`,
/// `SetProcessingParameters`): success on `0`, otherwise
/// [`VTError::EncodeFailed`].
pub fn status_result(status: OSStatus) -> (r: Result<(), VTError>)
    ensures
        status == 0 ==> r is Ok,
        status != 0 ==> r == Err::<(), VTError>(VTError::EncodeFailed(status)),
{
    if status == 0 {
        Ok(())
    } else {
        Err(VTError::EncodeFailed(status))
    }
}

/// Result of `VTRAWProcessingSessionCopyProcessingParameters`: the array
/// counts only when the status is `0` and the array is non-NULL.
pub fn parameters_result(status: OSStatus, array: usize) -> (r: Result<usize, VTError>)
    ensures
        (status == 0 && array != 0) <==> r is Ok,
        r matches Ok(a) ==> a == array,
        r matches Err(e) ==> e == VTError::EncodeFailed(status),
{
    if status != 0 || array == 0 {
        return Err(VTError::EncodeFailed(status));
    }
    Ok(array)
}

/// Result of processing one frame through the blocking bridge call: a
/// time-out is reported as such; otherwise the output counts only when the
/// status is `0` and the buffer is non-NULL.
pub fn process_result(status: OSStatus, output: usize) -> (r: Result<usize, VTError>)
    ensures
        status == VTB_TIMED_OUT ==> r == Err::<usize, VTError>(
            VTError::TimedOut { operation: "RawProcessingSession::process" },
        ),
        status != VTB_TIMED_OUT && (status != 0 || output == 0) ==> r == Err::<usize, VTError>(
            VTError::EncodeFailed(status),
        ),
        status == 0 && output != 0 ==> r == Ok::<usize, VTError>(output),
{
    if status == VTB_TIMED_OUT {
        return Err(VTError::TimedOut { operation: "RawProcessingSession::process" });
    }
    if status != 0 || output == 0 {
        return Err(VTError::EncodeFailed(status));
    }
    Ok(output)
}

/// The error an awaited RAW processing reports for a failure message: the
/// status the message carries, as [`VTError::EncodeFailed`].
pub fn async_processing_error(message: &str) -> (r: VTError)
    ensures
        r == VTError::EncodeFailed(spec_async_status(message@)),
{
    VTError::EncodeFailed(crate::decompression::parse_async_status(message))
}

} // verus!
