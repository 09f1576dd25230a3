//! The errors of the runtime.

use crate::version::{Version, VersionReq};
use libloading::Error as LibloadingError;
use vstd::prelude::*;
use vstd::string::{to_string_from_display_ensures, StringExecFns};

verus! {

#[verifier::external_type_specification]
#[verifier::external_body]
pub struct ExIoError(std::io::Error);

#[verifier::external_type_specification]
#[verifier::external_body]
pub struct ExBincodeErrorKind(bincode::ErrorKind);

#[verifier::external_type_specification]
#[verifier::external_body]
pub struct ExLibloadingError(LibloadingError);

/// An error of discovery or of a hook call.
#[derive(Debug)]
pub enum Error {
    /// Input/output failed: spawning a script, or a pipe.
    Io(std::io::Error),
    /// A value could not be encoded or decoded.
    Bincode(bincode::Error),
    /// The script was asked for a hook it does not listen for.
    ScriptIsNotListeningForHook,
    /// The script requires another version of the host program.
    ScriptVersionMismatch {
        /// The host program's version.
        program_actual_version: Version,
        /// The version the script requires of the host program.
        program_required_version: VersionReq,
    },
    /// A dynamic library could not be loaded, or lacks its entry symbol.
    DynamicLibError(LibloadingError),
}

impl Error {
    /// The error in words, for people.
    pub fn to_string(&self) -> (r: String)
        ensures
            self matches Error::Io(e) ==> to_string_from_display_ensures::<std::io::Error>(e, r),
            self matches Error::Bincode(e) ==> to_string_from_display_ensures::<bincode::Error>(e, r),
            self matches Error::ScriptIsNotListeningForHook ==> r@
                == "Could not trigger the hook, because the script is not listening for it"@,
            self matches Error::ScriptVersionMismatch {
                program_actual_version: actual,
                program_required_version: required,
            } ==> r@ == "The scripts requires version: "@ + actual@
                + ", but the program have version: "@ + required@,
            self matches Error::DynamicLibError(e) ==> exists|detail: String|
                to_string_from_display_ensures::<LibloadingError>(e, detail)
                && r@ == "Failed to load dynamic library:\n"@ + detail@,
    {
        match self {
            Error::Io(e) => e.to_string(),
            Error::Bincode(e) => e.to_string(),
            Error::ScriptIsNotListeningForHook => {
                "Could not trigger the hook, because the script is not listening for it".to_owned()
            },
            Error::ScriptVersionMismatch {
                program_actual_version: actual,
                program_required_version: required,
            } => {
                let r = "The scripts requires version: ".to_owned();
                let r = r.concat(actual.as_str());
                let r = r.concat(", but the program have version: ");
                r.concat(required.as_str())
            },
            Error::DynamicLibError(e) => {
                let detail = e.to_string();
                let r = "Failed to load dynamic library:\n".to_owned();
                r.concat(detail.as_str())
            },
        }
    }
}

impl From<std::io::Error> for Error {
    /// Wraps an input/output error.
    fn from(error: std::io::Error) -> (r: Self)
        ensures
            r == Error::Io(error),
    {
        Error::Io(error)
    }
}

impl vstd::std_specs::convert::FromSpecImpl<std::io::Error> for Error {
    open spec fn obeys_from_spec() -> bool {
        true
    }

    open spec fn from_spec(v: std::io::Error) -> Self {
        Error::Io(v)
    }
}

impl From<bincode::Error> for Error {
    /// Wraps a codec error.
    fn from(error: bincode::Error) -> (r: Self)
        ensures
            r == Error::Bincode(error),
    {
        Error::Bincode(error)
    }
}

impl vstd::std_specs::convert::FromSpecImpl<bincode::Error> for Error {
    open spec fn obeys_from_spec() -> bool {
        true
    }

    open spec fn from_spec(v: bincode::Error) -> Self {
        Error::Bincode(v)
    }
}

impl From<LibloadingError> for Error {
    /// Wraps a dynamic-library error.
    fn from(error: LibloadingError) -> (r: Self)
        ensures
            r == Error::DynamicLibError(error),
    {
        Error::DynamicLibError(error)
    }
}

impl vstd::std_specs::convert::FromSpecImpl<LibloadingError> for Error {
    open spec fn obeys_from_spec() -> bool {
        true
    }

    open spec fn from_spec(v: LibloadingError) -> Self {
        Error::DynamicLibError(v)
    }
}

} // verus!
