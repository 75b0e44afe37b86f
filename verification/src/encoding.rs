//! Translations between the bridge's typed values and the integer
//! encodings the native caller expects.
//!
//! A trampoline's last step is always the same: the capability method's
//! return value is turned back into the native encoding — a two-valued
//! boolean, a drag-operation bitmask, or a reply code — before control
//! returns to the runtime. These functions pin those encodings down.

use vstd::prelude::*;

verus! {

/// The affirmative value of the native runtime's two-valued boolean.
pub const NATIVE_YES: u8 = 1;

/// The negative value of the native runtime's two-valued boolean.
pub const NATIVE_NO: u8 = 0;

/// What a boolean becomes in the native two-valued encoding.
pub open spec fn bool_mask(b: bool) -> u8 {
    if b {
        1u8
    } else {
        0u8
    }
}

/// Translates a capability method's boolean result for the native caller.
pub fn encode_bool(b: bool) -> (r: u8)
    ensures
        r == bool_mask(b),
{
    if b {
        NATIVE_YES
    } else {
        NATIVE_NO
    }
}

/// The drag-and-drop operations a view controller can answer with when a
/// drag session enters its view.
#[derive(Clone, Copy, PartialEq, Eq, Structural, Debug)]
pub enum DragOperation {
    /// The drag is not accepted.
    DragNone,
    /// The dragged data would be copied.
    DragCopy,
    /// The destination would create a link to the dragged data.
    DragLink,
    /// The source decides which operation applies.
    DragGeneric,
    /// An operation negotiated privately between source and destination.
    DragPrivate,
    /// The dragged data would be moved.
    DragMove,
}

/// The bitmask value the native runtime assigns to each drag operation.
pub open spec fn drag_mask(op: DragOperation) -> u64 {
    match op {
        DragOperation::DragNone => 0u64,
        DragOperation::DragCopy => 1u64,
        DragOperation::DragLink => 2u64,
        DragOperation::DragGeneric => 4u64,
        DragOperation::DragPrivate => 8u64,
        DragOperation::DragMove => 16u64,
    }
}

/// Whether a value is one of the drag-operation bitmask values.
pub open spec fn is_drag_mask(r: u64) -> bool {
    r == 0 || r == 1 || r == 2 || r == 4 || r == 8 || r == 16
}

/// Translates a drag operation into the native bitmask encoding.
pub fn encode_drag_operation(op: DragOperation) -> (r: u64)
    ensures
        r == drag_mask(op),
        is_drag_mask(r),
{
    match op {
        DragOperation::DragNone => 0,
        DragOperation::DragCopy => 1,
        DragOperation::DragLink => 2,
        DragOperation::DragGeneric => 4,
        DragOperation::DragPrivate => 8,
        DragOperation::DragMove => 16,
    }
}

/// A delegate's answer to an open-files or print-files request.
#[derive(Clone, Copy, PartialEq, Eq, Structural, Debug)]
pub enum AppDelegateResponse {
    /// The request was handled.
    Success,
    /// The request was cancelled.
    Cancelled,
    /// Handling the request failed.
    Failure,
}

/// The reply code the native runtime assigns to each delegate response.
pub open spec fn delegate_response_code(response: AppDelegateResponse) -> u64 {
    match response {
        AppDelegateResponse::Success => 0u64,
        AppDelegateResponse::Cancelled => 1u64,
        AppDelegateResponse::Failure => 2u64,
    }
}

/// Translates a delegate response into the native reply code.
pub fn encode_delegate_response(response: AppDelegateResponse) -> (r: u64)
    ensures
        r == delegate_response_code(response),
{
    match response {
        AppDelegateResponse::Success => 0,
        AppDelegateResponse::Cancelled => 1,
        AppDelegateResponse::Failure => 2,
    }
}

/// A delegate's answer to a termination request.
#[derive(Clone, Copy, PartialEq, Eq, Structural, Debug)]
pub enum TerminateResponse {
    /// Terminate right away.
    Now,
    /// Do not terminate.
    Cancel,
    /// Defer the decision; a later reply settles it.
    Later,
}

/// The reply code the native runtime assigns to each termination answer.
pub open spec fn terminate_code(response: TerminateResponse) -> u64 {
    match response {
        TerminateResponse::Cancel => 0u64,
        TerminateResponse::Now => 1u64,
        TerminateResponse::Later => 2u64,
    }
}

/// Whether a value is one of the termination reply codes.
pub open spec fn is_terminate_code(r: u64) -> bool {
    r == 0 || r == 1 || r == 2
}

/// Translates a termination answer into the native reply code.
pub fn encode_terminate_response(response: TerminateResponse) -> (r: u64)
    ensures
        r == terminate_code(response),
        is_terminate_code(r),
{
    match response {
        TerminateResponse::Cancel => 0,
        TerminateResponse::Now => 1,
        TerminateResponse::Later => 2,
    }
}

} // verus!
