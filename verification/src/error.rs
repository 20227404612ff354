//! Typed errors over host status codes.
//!
//! A status code is a 32-bit value; the distinguished `STATUS_SUCCESS` means
//! success and every other value names a failure category. [`Error`] is a thin
//! typed wrapper over a non-success status, and [`IntoResult`] turns a raw
//! status into a `Result`.

use vstd::prelude::*;

verus! {

/// The distinguished success status.
pub const STATUS_SUCCESS: u32 = 0x0000_0000;

pub const STATUS_GUARD_PAGE_VIOLATION: u32 = 0x8000_0001;
pub const STATUS_DATATYPE_MISALIGNMENT: u32 = 0x8000_0002;
pub const STATUS_BREAKPOINT: u32 = 0x8000_0003;
pub const STATUS_SINGLE_STEP: u32 = 0x8000_0004;
pub const STATUS_UNWIND_CONSOLIDATE: u32 = 0x8000_0029;
pub const STATUS_UNSUCCESSFUL: u32 = 0xC000_0001;
pub const STATUS_NOT_IMPLEMENTED: u32 = 0xC000_0002;
pub const STATUS_ACCESS_VIOLATION: u32 = 0xC000_0005;
pub const STATUS_IN_PAGE_ERROR: u32 = 0xC000_0006;
pub const STATUS_INVALID_HANDLE: u32 = 0xC000_0008;
pub const STATUS_INVALID_PARAMETER: u32 = 0xC000_000D;
pub const STATUS_END_OF_FILE: u32 = 0xC000_0011;
pub const STATUS_NO_MEMORY: u32 = 0xC000_0017;
pub const STATUS_ILLEGAL_INSTRUCTION: u32 = 0xC000_001D;
pub const STATUS_NONCONTINUABLE_EXCEPTION: u32 = 0xC000_0025;
pub const STATUS_INVALID_DISPOSITION: u32 = 0xC000_0026;
pub const STATUS_ARRAY_BOUNDS_EXCEEDED: u32 = 0xC000_008C;
pub const STATUS_FLOAT_DENORMAL_OPERAND: u32 = 0xC000_008D;
pub const STATUS_FLOAT_DIVIDE_BY_ZERO: u32 = 0xC000_008E;
pub const STATUS_FLOAT_INEXACT_RESULT: u32 = 0xC000_008F;
pub const STATUS_FLOAT_INVALID_OPERATION: u32 = 0xC000_0090;
pub const STATUS_FLOAT_OVERFLOW: u32 = 0xC000_0091;
pub const STATUS_FLOAT_STACK_CHECK: u32 = 0xC000_0092;
pub const STATUS_FLOAT_UNDERFLOW: u32 = 0xC000_0093;
pub const STATUS_INTEGER_DIVIDE_BY_ZERO: u32 = 0xC000_0094;
pub const STATUS_INTEGER_OVERFLOW: u32 = 0xC000_0095;
pub const STATUS_PRIVILEGED_INSTRUCTION: u32 = 0xC000_0096;
pub const STATUS_INSUFFICIENT_RESOURCES: u32 = 0xC000_009A;
pub const STATUS_INVALID_USER_BUFFER: u32 = 0xC000_00E8;
pub const STATUS_STACK_OVERFLOW: u32 = 0xC000_00FD;

/// A typed error carrying the host status code it came from.
///
/// Equality is equality of the wrapped status. Converting an [`Error`] back
/// to a status code with [`Error::to_ntstatus`] inverts
/// [`Error::from_ntstatus`].
#[derive(Clone, Copy, Debug, PartialEq, Eq, Structural)]
pub struct Error(pub u32);

impl Error {
    /// Wraps a host status code as a typed error.
    pub fn from_ntstatus(status: u32) -> (r: Error)
        ensures
            r.0 == status,
    {
        Error(status)
    }

    /// Returns the host status code this error stands for.
    pub fn to_ntstatus(&self) -> (r: u32)
        ensures
            r == self.0,
    {
        self.0
    }
}

/// Conversion of a raw host status into a `Result`: the distinguished success
/// value maps to `Ok(())`, every other value to an error wrapping it.
pub trait IntoResult: Sized {
    fn into_result(self) -> Result<(), Error>;
}

impl IntoResult for u32 {
    fn into_result(self) -> (r: Result<(), Error>)
        ensures
            self == STATUS_SUCCESS <==> r is Ok,
            r matches Err(e) ==> e.0 == self,
    {
        if self == STATUS_SUCCESS {
            Ok(())
        } else {
            Err(Error::from_ntstatus(self))
        }
    }
}

} // verus!
