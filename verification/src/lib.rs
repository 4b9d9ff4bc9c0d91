//! Lifecycle-safe wrapper around a vendor real-time media engine.
//!
//! The engine itself is a prebuilt native library reached over a C ABI; this
//! crate holds the two parts of the binding that have design content of their
//! own and proves them correct:
//!
//! * a marshaling layer that turns host values into the byte layouts the
//!   native ABI expects and native status codes back into typed results
//!   ([`marshal`], [`errors`]);
//! * a session state machine that enforces the legal order of the native
//!   init / create-connection / join / send / leave / destroy / deinit calls
//!   and guarantees teardown always completes ([`session`]).
//!
//! The native calls themselves are unsafe foreign calls and stay outside this
//! crate: each session operation is split into a `begin_*` step that validates
//! the state and marshals the arguments, and a `complete_*` step that takes
//! the native return code and moves the state machine. The caller performs
//! the foreign call in between.

pub mod errors;
pub mod marshal;
pub mod options;
pub mod session;

use vstd::prelude::*;

verus! {

/// Version of the vendor RTC API this binding targets. The marshaled layouts
/// and the call surface of [`session`] follow this revision of the vendor
/// header.
pub fn get_version() -> (v: String)
    ensures
        v@ == "1.8.0"@,
{
    "1.8.0".to_owned()
}

} // verus!
