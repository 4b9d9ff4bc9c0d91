//! Conversion between host values and the byte layouts the native ABI
//! expects, with no ambiguity about what crosses the boundary.
//!
//! Strings travel outward as null-terminated byte buffers and inward as
//! null-stripped byte runs; fixed-capacity native fields are zero-padded.
//! Nothing here calls a state-changing native entry point: every function is
//! a pure conversion, and every rejection happens before any native call
//! could be made.

use vstd::prelude::*;
use vstd::string::StringSliceAdditionalSpecFns;
use vstd::utf8::valid_utf8;
use vstd::utf8::decode_utf8;
use crate::errors::RtcError;

verus! {

/// The bytes of `data` followed by zero padding up to `cap` bytes: the
/// layout of a fixed-capacity native buffer holding `data`.
pub open spec fn zero_padded(data: Seq<u8>, cap: int) -> Seq<u8>
    recommends
        data.len() <= cap,
{
    data + Seq::new((cap - data.len()) as nat, |i: int| 0u8)
}

/// Encodes a byte sequence as a null-terminated buffer for a native call.
///
/// Succeeds exactly when the sequence holds no embedded null byte; the
/// result is the sequence followed by a single terminator. The buffer only
/// needs to outlive the one native call that consumes it.
pub fn encode_c_bytes(data: &[u8]) -> (r: Result<Vec<u8>, RtcError>)
    ensures
        r is Ok <==> !data@.contains(0u8),
        r matches Ok(b) ==> b@ == data@.push(0u8),
        r matches Err(e) ==> e == RtcError::EncodingError,
{
    let mut out: Vec<u8> = Vec::new();
    let n: usize = data.len();
    let mut i: usize = 0;
    while i < n
        invariant
            i <= n,
            n == data@.len(),
            out@ == data@.take(i as int),
            forall|j: int| 0 <= j < i ==> data@[j] != 0u8,
        decreases n - i,
    {
        let b = data[i];
        if b == 0 {
            assert(data@.contains(0u8));
            return Err(RtcError::EncodingError);
        }
        out.push(b);
        assert(out@ =~= data@.take(i + 1));
        i = i + 1;
    }
    assert(out@ =~= data@);
    assert(!data@.contains(0u8)) by {
        assert(forall|j: int| 0 <= j < data@.len() ==> data@[j] != 0u8);
    }
    out.push(0);
    Ok(out)
}

/// Encodes a host string as a null-terminated byte buffer for a native
/// call: its UTF-8 bytes, checked for an embedded null byte as in
/// [`encode_c_bytes`].
pub fn encode_c_string(s: &str) -> (r: Result<Vec<u8>, RtcError>)
    ensures
        r is Ok <==> !s.spec_bytes().contains(0u8),
        r matches Ok(b) ==> b@ == s.spec_bytes().push(0u8),
        r matches Err(e) ==> e == RtcError::EncodingError,
{
    encode_c_bytes(s.as_bytes())
}

/// Lays a byte sequence out in a fixed-capacity native buffer.
///
/// Succeeds exactly when `data` fits in `cap` bytes; the result is `data`
/// zero-padded to exactly `cap` bytes. An oversized sequence is rejected
/// before any native call could see it.
pub fn encode_fixed_buffer(data: &[u8], cap: usize) -> (r: Result<Vec<u8>, RtcError>)
    ensures
        r is Ok <==> data@.len() <= cap,
        r matches Ok(b) ==> b@ == zero_padded(data@, cap as int),
        r matches Err(e) ==> e == RtcError::CapacityExceeded,
{
    if data.len() > cap {
        return Err(RtcError::CapacityExceeded);
    }
    let mut out: Vec<u8> = Vec::new();
    let n: usize = data.len();
    let mut i: usize = 0;
    while i < n
        invariant
            i <= n,
            n == data@.len(),
            out@ == data@.take(i as int),
        decreases n - i,
    {
        out.push(data[i]);
        assert(out@ =~= data@.take(i + 1));
        i = i + 1;
    }
    while out.len() < cap
        invariant
            n == data@.len() <= cap,
            n <= out@.len() <= cap,
            out@.take(n as int) == data@,
            forall|j: int| n <= j < out@.len() ==> out@[j] == 0u8,
        decreases cap - out@.len(),
    {
        out.push(0);
        assert(out@.take(n as int) =~= data@);
    }
    assert(out@ =~= zero_padded(data@, cap as int));
    Ok(out)
}

/// Relies on `String::from_utf8`: it succeeds exactly when the bytes are
/// valid UTF-8, and then returns the string those bytes encode.
#[verifier::external_body]
fn bytes_to_string(bytes: Vec<u8>) -> (r: Option<String>)
    ensures
        r is Some <==> valid_utf8(bytes@),
        r matches Some(s) ==> s@ == decode_utf8(bytes@),
{
    match String::from_utf8(bytes) {
        Ok(s) => Some(s),
        Err(_) => None,
    }
}

/// Decodes the bytes of a native string (already cut at its terminator)
/// into a host string.
///
/// Succeeds exactly when the bytes are valid text; anything else is
/// rejected rather than silently replaced, so a native-side bug cannot be
/// masked by substitute characters.
pub fn decode_c_string(bytes: &[u8]) -> (r: Result<String, RtcError>)
    ensures
        r is Ok <==> valid_utf8(bytes@),
        r matches Ok(s) ==> s@ == decode_utf8(bytes@),
        r matches Err(e) ==> e == RtcError::EncodingError,
{
    let owned: Vec<u8> = vstd::slice::slice_to_vec(bytes);
    match bytes_to_string(owned) {
        Some(s) => Ok(s),
        None => Err(RtcError::EncodingError),
    }
}

} // verus!
