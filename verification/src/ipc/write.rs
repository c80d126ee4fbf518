//! One bounded, non-blocking write of a text frame: the checks that keep a
//! frame from being dispatched, and the classification of what the platform
//! reported, which decides whether the frame may have been delivered.

use vstd::prelude::*;
use crate::error::AppControlError;
use crate::ipc::endpoint::{cancelled_error, endpoint_error};

verus! {

/// What one write attempt achieved.
#[derive(Clone, Copy, Debug, PartialEq, Eq, Structural)]
pub enum BoundedTextWriteAttempt {
    /// The whole frame was written.
    Written,
    /// Nothing was written because the pipe was full: the frame was not dispatched.
    BackpressureZero,
    /// The platform failed or wrote part of the frame: delivery cannot be ruled out.
    DeliveryUncertain,
}

/// A write that failed before or while dispatching, with whether the frame
/// may have been delivered.
#[derive(Debug)]
pub struct BoundedTextWriteFailure {
    pub error: AppControlError,
    pub delivery_may_have_occurred: bool,
}

impl BoundedTextWriteFailure {
    /// Whether the frame may have been delivered.
    pub fn delivery_may_have_occurred(&self) -> (r: bool)
        ensures
            r == self.delivery_may_have_occurred,
    {
        self.delivery_may_have_occurred
    }

    /// The public error.
    pub fn into_error(self) -> (r: AppControlError)
        ensures
            r == self.error,
    {
        self.error
    }

    /// The public error's code.
    pub fn error_code(&self) -> (r: &'static str)
        ensures
            r == self.error.code,
    {
        self.error.code
    }
}

/// A failure that provably kept the frame from being dispatched.
pub fn not_dispatched(error: AppControlError) -> (r: BoundedTextWriteFailure)
    ensures
        r.error == error,
        !r.delivery_may_have_occurred,
{
    BoundedTextWriteFailure { error, delivery_may_have_occurred: false }
}

/// A failure after which delivery cannot be ruled out.
pub fn delivery_uncertain(error: AppControlError) -> (r: BoundedTextWriteFailure)
    ensures
        r.error == error,
        r.delivery_may_have_occurred,
{
    BoundedTextWriteFailure { error, delivery_may_have_occurred: true }
}

/// The checks made before a bounded write, in order: the endpoint owner is
/// live, the frame is non-empty and within the budget, the endpoint supports
/// bounded writes, and the request is not cancelled. Each failure keeps the
/// frame undispatched.
pub fn write_preflight(
    authority: Option<bool>,
    frame_bytes: usize,
    maximum_write_frame_bytes: usize,
    bounded_write_nonblocking: bool,
    cancelled: bool,
) -> (r: Result<(), BoundedTextWriteFailure>)
    ensures
        r matches Err(f) ==> !f.delivery_may_have_occurred,
        !(authority is None || authority == Some(true)) ==> (r matches Err(f)
            && f.error.message@ == "The browser session endpoint owner is unavailable."@),
        (authority is None || authority == Some(true)) && (frame_bytes == 0 || frame_bytes > maximum_write_frame_bytes)
            ==> (r matches Err(f) && f.error.code@ == "ISOLATED_WORKER_UNAVAILABLE"@
                && f.error.message@ == "The interactive endpoint message exceeded its safety boundary."@),
        (authority is None || authority == Some(true)) && 0 < frame_bytes <= maximum_write_frame_bytes
            && !bounded_write_nonblocking ==> (r matches Err(f)
                && f.error.message@ == "The interactive endpoint does not support bounded text writes."@),
        (authority is None || authority == Some(true)) && 0 < frame_bytes <= maximum_write_frame_bytes
            && bounded_write_nonblocking && cancelled ==> (r matches Err(f) && f.error.code@ == "CANCELLED"@),
        r is Ok <==> ((authority is None || authority == Some(true)) && 0 < frame_bytes <= maximum_write_frame_bytes
            && bounded_write_nonblocking && !cancelled),
{
    match crate::ipc::endpoint::require_browser_authority_live(authority) {
        Ok(()) => {},
        Err(e) => { return Err(not_dispatched(e)); },
    }
    if frame_bytes == 0 || frame_bytes > maximum_write_frame_bytes {
        return Err(not_dispatched(endpoint_error("The interactive endpoint message exceeded its safety boundary.")));
    }
    if !bounded_write_nonblocking {
        return Err(not_dispatched(endpoint_error("The interactive endpoint does not support bounded text writes.")));
    }
    if cancelled {
        return Err(not_dispatched(cancelled_error()));
    }
    Ok(())
}

/// Classifies a completed platform write of `frame_bytes` bytes: a failed call
/// or a partial write leaves delivery uncertain, a full write is written, and
/// a successful write of nothing is back-pressure.
pub fn classify_write(call_succeeded: bool, written: u32, frame_bytes: usize) -> (r: BoundedTextWriteAttempt)
    ensures
        r == if !call_succeeded {
            BoundedTextWriteAttempt::DeliveryUncertain
        } else if written as int == frame_bytes as int {
            BoundedTextWriteAttempt::Written
        } else if written == 0 {
            BoundedTextWriteAttempt::BackpressureZero
        } else {
            BoundedTextWriteAttempt::DeliveryUncertain
        },
{
    if !call_succeeded {
        BoundedTextWriteAttempt::DeliveryUncertain
    } else if written as u64 == frame_bytes as u64 {
        BoundedTextWriteAttempt::Written
    } else if written == 0 {
        BoundedTextWriteAttempt::BackpressureZero
    } else {
        BoundedTextWriteAttempt::DeliveryUncertain
    }
}

} // verus!
