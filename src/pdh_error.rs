use crate::pdh::PDH_FUNCTION;
use vstd::prelude::*;

verus! {

/// windows-core's `Error`, an `HRESULT` with optional error information,
/// carried through as it is.
#[verifier::external_type_specification]
#[verifier::external_body]
pub struct ExError(windows::core::Error);

/// Relies on windows-core's `HRESULT::ok`: `Ok(())` exactly for a success
/// code, one that is not negative.
pub assume_specification[ windows::core::HRESULT::ok ](h: windows::core::HRESULT) -> (r:
    windows::core::Result<()>)
    ensures
        r.is_ok() == (h.0 >= 0),
;

/// Relies on windows-core's `Error::code`, which hands out the error's code.
pub assume_specification[ windows::core::Error::code ](e: &windows::core::Error) -> (r:
    windows::core::HRESULT)
;

impl PDH_FUNCTION {
    /// The status carried by `error`'s code.
    pub fn from_error(error: &windows::core::Error) -> (r: Option<Self>)
        ensures
            r.is_some(),
    {
        Some(Self::from_hresult(error.code()))
    }

    /// `Ok(())` when the status, read as an `HRESULT`, is a success code
    /// (not negative), and the matching error otherwise.
    pub fn ok(self) -> (r: windows::core::Result<()>)
        ensures
            r.is_ok() == ((self.0 as i32) >= 0),
    {
        self.to_hresult().ok()
    }
}

} // verus!
