use vstd::prelude::*;

use crate::sys::{CURLE_OK, CURLE_CONV_FAILED};

verus! {

/// An error reported by libcurl, identified by its `CURLcode`.
#[derive(Debug, Clone, Copy, PartialEq, Eq, Structural)]
pub struct Error {
    code: u32,
}

impl View for Error {
    type V = u32;

    closed spec fn view(&self) -> u32 {
        self.code
    }
}

impl Error {
    /// Creates an error from the `CURLcode` that libcurl returned.
    pub fn new(code: u32) -> (e: Error)
        ensures
            e@ == code,
    {
        Error { code }
    }

    /// The `CURLcode` that this error carries.
    pub fn code(&self) -> (c: u32)
        ensures
            c == self@,
    {
        self.code
    }

    /// The error given for text that cannot be handed to libcurl as a C
    /// string because it holds a NUL byte.
    pub fn conv_failed() -> (e: Error)
        ensures
            e@ == CURLE_CONV_FAILED,
    {
        Error { code: CURLE_CONV_FAILED }
    }
}

/// Converts a `CURLcode` into a `Result`: success exactly for `CURLE_OK`,
/// otherwise an error carrying the code.
pub fn cvt(r: u32) -> (res: Result<(), Error>)
    ensures
        res is Ok <==> r == CURLE_OK,
        res matches Err(e) ==> e@ == r,
{
    if r == CURLE_OK {
        Ok(())
    } else {
        Err(Error::new(r))
    }
}

} // verus!
