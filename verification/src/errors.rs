//! Error taxonomy of the binding and translation of native return codes.
//!
//! Every native entry point reports an `ErrorCode`: zero means success and
//! any nonzero value is an opaque vendor error code. Nothing here interprets
//! such a code beyond that split; the code is preserved verbatim so a caller
//! can consult the vendor documentation or the native reason lookup.

use vstd::prelude::*;

verus! {

/// Raw status value returned by every native entry point.
pub type ErrorCode = i32;

/// Failures the binding itself can report.
///
/// `EncodingError`, `CapacityExceeded`, `InvalidState` and
/// `NoDefaultConfigured` are detected before any native call is made;
/// `NativeError` carries a nonzero native return code verbatim.
#[derive(Clone, Copy, Debug, PartialEq, Eq, Structural)]
pub enum RtcError {
    /// A value to be marshaled was not encodable: an embedded null byte on
    /// the way out, or bytes that are not valid text on the way in.
    EncodingError,
    /// A byte sequence did not fit into a fixed-capacity native buffer.
    CapacityExceeded,
    /// The operation is forbidden in the session's current state.
    InvalidState,
    /// A send with no explicit frame description was attempted while the
    /// session holds no default one.
    NoDefaultConfigured,
    /// A native call returned this nonzero status.
    NativeError(ErrorCode),
}

/// Splits a native return code: zero is success, anything else is a failure
/// carrying that exact code.
pub fn err_2_result(code: ErrorCode) -> (r: Result<(), ErrorCode>)
    ensures
        r == (if code == 0 {
            Result::<(), ErrorCode>::Ok(())
        } else {
            Result::<(), ErrorCode>::Err(code)
        }),
{
    match code {
        0 => Result::Ok(()),
        _ => Result::Err(code),
    }
}

/// Spec-level form of [`code_to_result`]: what a native return code means as
/// a typed result.
pub open spec fn spec_code_to_result(code: ErrorCode) -> Result<(), RtcError> {
    if code == 0 {
        Ok(())
    } else {
        Err(RtcError::NativeError(code))
    }
}

/// Lifts a native return code into the binding's error taxonomy: zero is
/// success, any nonzero code becomes `NativeError` with that exact code.
pub fn code_to_result(code: ErrorCode) -> (r: Result<(), RtcError>)
    ensures
        r == spec_code_to_result(code),
{
    match code {
        0 => Result::Ok(()),
        _ => Result::Err(RtcError::NativeError(code)),
    }
}

} // verus!
