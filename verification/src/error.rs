//! The error taxonomy of the capture pipeline.

use vstd::prelude::*;
use vstd::string::StringExecFns;

verus! {

/// Declares `std::io::Error` as an opaque type, so that the `Io`
/// variant can carry the low-level cause of a storage failure.
#[verifier::external_type_specification]
#[verifier::external_body]
pub struct ExIoError(std::io::Error);

/// A typed failure of the capture pipeline.
///
/// `DeviceNotFound` is returned when no default input device exists;
/// `StreamBuildFailed` is reserved for stream-construction failures;
/// `Io` wraps an underlying storage failure; `Other` carries a
/// human-readable description of any remaining failure point
/// (configuration negotiation, unsupported format, stream start,
/// finalization).
#[derive(Debug)]
pub enum MicError {
    DeviceNotFound,
    StreamBuildFailed,
    Io(std::io::Error),
    Other(String),
}

impl From<std::io::Error> for MicError {
    fn from(e: std::io::Error) -> (r: Self)
        ensures
            r == MicError::Io(e),
    {
        MicError::Io(e)
    }
}

impl vstd::std_specs::convert::FromSpecImpl<std::io::Error> for MicError {
    open spec fn obeys_from_spec() -> bool {
        true
    }

    open spec fn from_spec(e: std::io::Error) -> Self {
        MicError::Io(e)
    }
}

impl MicError {
    /// A short description of the failure, since the type has no `Display`.
    pub fn describe(&self) -> (r: String)
        ensures
            self is Other ==> r@ == self->Other_0@,
            self is DeviceNotFound ==> r@ == "no default input device"@,
            self is StreamBuildFailed ==> r@ == "failed to build the input stream"@,
            self is Io ==> r@ == "storage failure"@,
    {
        match self {
            MicError::DeviceNotFound => String::from_str("no default input device"),
            MicError::StreamBuildFailed => String::from_str("failed to build the input stream"),
            MicError::Io(_) => String::from_str("storage failure"),
            MicError::Other(msg) => msg.clone(),
        }
    }
}

} // verus!
