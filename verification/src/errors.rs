//! Result codes of the transport engine and their decoding.
//!
//! The engine reports the outcome of most calls as a numeric result code.
//! Code 1 means success; every other code is an engine-defined error that
//! this layer hands back verbatim so callers can branch on it.

use vstd::prelude::*;

verus! {

/// The engine's success code.
pub const E_RESULT_OK: u32 = 1;

/// A raw result code as the engine reports it. Code [`E_RESULT_OK`] is
/// success; anything else is an engine-defined error, passed through
/// unmodified.
#[derive(Debug, Copy, Clone, Hash, PartialEq, Eq, Structural)]
pub struct EResult(pub u32);

impl EResult {
    /// Whether this code is the engine's success code.
    pub open spec fn is_ok_code(self) -> bool {
        self.0 == E_RESULT_OK
    }

    /// The success code itself.
    pub fn ok() -> (r: EResult)
        ensures
            r.is_ok_code(),
    {
        EResult(E_RESULT_OK)
    }
}

/// Outcome of the fallible engine-backed operations of this layer: on
/// failure the engine's own code is returned so the caller can branch on
/// engine-defined semantics.
pub type GnsResult<T> = Result<T, EResult>;

/// A result code known to be worth inspecting: [`GnsError::into_result`]
/// turns it into `Ok(())` exactly when it is the success code, and into
/// `Err` carrying the code itself otherwise.
#[derive(Debug, Copy, Clone, Hash, PartialEq, Eq, Structural)]
pub struct GnsError(pub EResult);

/// What [`GnsError::into_result`] returns for a given wrapped code.
pub open spec fn into_result_model(e: GnsError) -> GnsResult<()> {
    if e.0.is_ok_code() {
        Ok(())
    } else {
        Err(e.0)
    }
}

impl GnsError {
    /// Decode the wrapped code: success becomes `Ok(())`, every other code
    /// is handed back in `Err`.
    pub fn into_result(self) -> (r: GnsResult<()>)
        ensures
            r == into_result_model(self),
            r is Ok <==> self.0.is_ok_code(),
    {
        if self.0.0 == E_RESULT_OK {
            Ok(())
        } else {
            Err(self.0)
        }
    }
}

impl From<GnsError> for GnsResult<()> {
    /// The conversion [`GnsError::into_result`] performs, as `From`.
    fn from(e: GnsError) -> (r: GnsResult<()>)
        ensures
            r == into_result_model(e),
    {
        e.into_result()
    }
}

impl vstd::std_specs::convert::FromSpecImpl<GnsError> for GnsResult<()> {
    open spec fn obeys_from_spec() -> bool {
        true
    }

    open spec fn from_spec(e: GnsError) -> Self {
        into_result_model(e)
    }
}

} // verus!
