//! Return codes of the native library.

use vstd::prelude::*;

verus! {

/// The code by which the native library reports success.
pub const EPHIDGET_OK: u32 = 0;

/// A code by which the native library reported a failure.
#[derive(Clone, Copy, Debug, PartialEq, Eq, Structural)]
pub struct ReturnCode {
    /// The code as the native library returned it.
    pub code: u32,
}

impl ReturnCode {
    /// What a native return code means: success for `EPHIDGET_OK`, and for
    /// any other code a failure that carries the code.
    pub open spec fn result_spec(rc: u32) -> Result<(), ReturnCode> {
        if rc == EPHIDGET_OK {
            Ok(())
        } else {
            Err(ReturnCode { code: rc })
        }
    }

    /// What a native call with an out-parameter yields: the value it wrote
    /// on success, and otherwise the failure alone.
    pub open spec fn value_spec<T>(rc: u32, value: T) -> Result<T, ReturnCode> {
        match Self::result_spec(rc) {
            Ok(_) => Ok(value),
            Err(e) => Err(e),
        }
    }

    /// Turns the return code of a native call into a `Result`.
    pub fn result(rc: u32) -> (r: Result<(), ReturnCode>)
        ensures
            r == Self::result_spec(rc),
    {
        if rc == EPHIDGET_OK {
            Ok(())
        } else {
            Err(ReturnCode { code: rc })
        }
    }

    /// Turns the return code of a native call and the value that the call
    /// wrote through its out-parameter into a `Result`. The value is handed
    /// on only if the call succeeded.
    pub fn value<T>(rc: u32, value: T) -> (r: Result<T, ReturnCode>)
        ensures
            r == Self::value_spec(rc, value),
    {
        match Self::result(rc) {
            Ok(_) => Ok(value),
            Err(e) => Err(e),
        }
    }
}

} // verus!
